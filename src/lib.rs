//! Keeps a DNS zone's AAAA records for a list of domain names in step with one
//! IPv6 address.
//!
//! The library decides; the caller talks to the DNS provider. A session hands
//! out one provider call at a time and is told how that call went, so every
//! call that reaches the provider is chosen by verified code.
pub mod create;
pub mod delete;
pub mod records;
pub mod settings;

pub use create::{creation_request, CreateAction, CreateSession};
pub use delete::{is_wanted_name, listing_request, plan_deletions, DeleteAction, DeleteSession};
pub use records::{CreateRequest, DeleteRequest, ExistingRecord, Ipv6Address, ListRequest, RecordContent, LISTING_PAGE_SIZE};
pub use settings::{
    command_of_lowered, flag_is_set, load_config, means_true, parse_command, split_domains, start_reconciliation,
    AddressSetting, Command, Config, ConfigError, RawConfig, Reconciliation, Startup,
};
