pub mod dio_type;
pub mod dio_cfg;
pub mod dio;
pub mod mcu;
pub mod adc_type;
pub mod adc;
pub mod usart_type;
pub mod usart;
pub mod spi_type;
pub mod spi;
pub mod mcp2515_type;
pub mod mcp2515;
pub mod can_type;
pub mod exti_type;
pub mod exti;
pub mod port;
pub mod uart;
