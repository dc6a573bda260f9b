pub mod model;
pub mod model_laws;
pub mod structures;
pub mod pick;
pub mod palette;
