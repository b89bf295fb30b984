//! Helpers for services that run beside the fund.

pub mod price_stream_service;
