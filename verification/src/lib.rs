//! Verified core of the navipod terminal inspector for Kubernetes.
pub mod cert_app;
pub mod clipboard;
pub mod cert_validation;
pub mod container_app;
pub mod controller;
pub mod data;
pub mod domain;
pub mod event_app;
pub mod ingress_app;
pub mod keys;
pub mod log_app;
pub mod modern_ui;
pub mod namespace_app;
pub mod order;
pub mod pod_app;
pub mod rs_app;
pub mod shared_ui;
pub mod sparkline;
pub mod stream_factory;
pub mod table;
pub mod text;
pub mod time_util;
pub mod theme;
pub mod tuples;
pub mod ui_cache;
pub mod ui_loop;
pub mod yaml;
