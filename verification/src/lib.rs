pub mod channel;
pub mod fullscan;
pub mod multi;
pub mod runtime;
pub mod scoped;
pub mod sleep;
pub mod sleep2;
