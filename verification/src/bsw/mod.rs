pub mod comm_type;
pub mod comm_cfg;
pub mod comm;
pub mod iohwab_type;
pub mod led;
pub mod sensor;
pub mod ioif_type;
pub mod ioif_cfg;
pub mod ioif_rx;
pub mod button;
pub mod ioif_tx;
pub mod ioif;
pub mod usartif_type;
pub mod usartif_cfg;
pub mod usartif_tx;
pub mod usartif_rx;
pub mod scheduler_type;
pub mod scheduler;
