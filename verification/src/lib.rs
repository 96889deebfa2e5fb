//! Decisions of a local agent runtime: configuration, access, plans, goals, tools and plugins.

pub mod access;
pub mod adapters;
pub mod agent_tools;
pub mod attachments;
pub mod builtin_policy;
pub mod composition;
pub mod config;
pub mod context_tools;
pub mod development;
pub mod diagnostics;
pub mod direct_effects;
pub mod documents;
pub mod effects;
pub mod encoding;
pub mod entries;
pub mod error;
pub mod executables;
pub mod extensions;
pub mod filesystem_tools;
pub mod generic_effects;
pub mod goal_loop;
pub mod identifiers;
pub mod instruction_files;
pub mod instruction_snapshots;
pub mod json;
pub mod mcp_search;
pub mod mcp_servers;
pub mod memory_access;
pub mod memory_indexes;
pub mod names;
pub mod network_tools;
pub mod opening;
pub mod operations;
pub mod ordered;
pub mod origins;
pub mod pack_extensions;
pub mod pack_process;
pub mod path_order;
pub mod paths;
pub mod plan_execution;
pub mod plugin_catalog;
pub mod plugin_extensions;
pub mod plugin_inventory;
pub mod plugin_management;
pub mod plugin_policy;
pub mod plugin_settings;
pub mod plugin_variables;
pub mod policy_plan;
pub mod probes;
pub mod process_tools;
pub mod ranking;
pub mod redaction;
pub mod registry_effects;
pub mod reports;
pub mod repository_tools;
pub mod resolved;
pub mod runs;
pub mod scheduling;
pub mod secrets;
pub mod snapshot_store;
pub mod storage;
pub mod text;
pub mod tool_documents;
pub mod tool_results;
pub mod tools;
pub mod urls;
pub mod validation;
pub mod work_tools;
