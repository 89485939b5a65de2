pub mod attributes;
pub mod errors;
pub mod events;
pub mod laws;
pub mod text;
pub mod uri;

pub use attributes::HtmxAttrs;
pub use attributes::HtmxExt;
pub use attributes::HtmxTarget;
pub use attributes::HtmxTrigger;
pub use errors::HtmxError;
pub use events::HtmxEvent;
pub use events::HtmxModifier;
