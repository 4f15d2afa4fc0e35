pub mod aggregate;
pub mod config;
pub mod decimal;
pub mod gateway_laws;
pub mod laws;
pub mod payer_run;
pub mod primitives;
pub mod receipts;
pub mod seahorn;
pub mod service_laws;
pub mod tap;
pub mod tap_aggregator;
pub mod text;
pub mod text_laws;
pub mod tokens_collected;
