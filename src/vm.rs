pub mod codec;
pub mod image;
pub mod laws;
pub mod machine;
pub mod run;
pub mod step;
pub mod trap;
