pub mod splash;
pub mod ui;
