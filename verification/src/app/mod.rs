pub mod button_app;
pub mod led_app;
