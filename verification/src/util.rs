pub mod warning_collector;
