//! Backend core of the Veyra proxy client: domain state, routing rules, runtime
//! projection and the in-memory observation read side.
pub mod digest;
pub mod entropy;
pub mod domain;
pub mod text;
pub mod validation;
pub mod order;
pub mod selected_subscription;
pub mod observability;
pub mod subscription;
pub mod storage;
pub mod state_access;
pub mod subscription_management;
pub mod sidecar;
pub mod managed_runtime;
pub mod runtime;
pub mod responses;
pub mod routing_dto;
pub mod weburl;
pub mod proxy_routing;
pub mod provider_replacement;
pub mod subscription_update;
pub mod update_schedule;
pub mod document_apply;
pub mod activation;
pub mod subscription_delete;
pub mod document_save;
pub mod clash_document;
pub mod subscription_import;
pub mod worker_steps;
pub mod projection_laws;
