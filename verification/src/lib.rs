pub mod control;
pub mod date;
pub mod model;
pub mod text;
pub mod textbox;
