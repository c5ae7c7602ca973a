//! An extensible component registry: plugin types register themselves by
//! name per capability, a configuration block selects one by its `type`
//! discriminator, and the resolved configuration — defaults included — can be
//! echoed back. The condition capability exercises the registry with two
//! plugins, `field_equals` and `static`.

pub mod component;
pub mod conditions;
pub mod event;
pub mod strutil;
pub mod toml_io;
pub mod value;
