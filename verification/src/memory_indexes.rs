//! The indexes of memory that a configuration asks for.

use crate::config::{Platform, RuntimeConfig, SemanticMemoryConfig, StorageAdapter};
use crate::error::{answers, RuntimeError, Verdict};
use crate::paths::{extended, with_extension};
use crate::storage::check_verdict;
use crate::text::{concat2, concat3};
use vstd::prelude::*;
use vstd::string::*;

verus! {

/// The lexical index.
#[derive(Debug)]
pub enum LexicalIndex {
    /// It is switched off.
    Disabled,
    /// It is kept in memory.
    InMemory,
    /// It is kept in a directory.
    Directory(String),
}

/// The index of memory: its registered name and where it is kept.
#[derive(Debug)]
pub struct MemoryIndexPlan {
    pub name: String,
    pub lexical: LexicalIndex,
    /// The file of a semantic index beside it, with the last applied position.
    pub position_path: Option<String>,
}

/// Where the lexical index is kept.
pub open spec fn lexical_directory(platform: Platform, config: RuntimeConfig) -> Option<Seq<char>> {
    if config.storage.adapter is Ephemeral && config.memory.index_path is None {
        None
    } else {
        Some(
            match config.memory.index_path {
                Some(path) => path@,
                None => extended(platform, config.storage.path@, "memory-index"@),
            },
        )
    }
}

/// The file of the semantic index.
pub open spec fn semantic_position(platform: Platform, config: RuntimeConfig) -> Option<Seq<char>> {
    match config.memory.semantic {
        SemanticMemoryConfig::Disabled => None,
        SemanticMemoryConfig::Chroma { position_path, .. } => Some(
            match position_path {
                Some(path) => path@,
                None => extended(platform, config.storage.path@, "chroma-position.json"@),
            },
        ),
    }
}

/// The directory of the lexical index that a configuration asks for; none where it is off or kept in
/// memory.
pub fn lexical_index(platform: Platform, config: &RuntimeConfig) -> (index: LexicalIndex)
    ensures
        match index {
            LexicalIndex::Disabled => !config.memory.index_enabled,
            LexicalIndex::InMemory => config.memory.index_enabled && lexical_directory(platform, *config) is None,
            LexicalIndex::Directory(path) => config.memory.index_enabled && lexical_directory(
                platform,
                *config,
            ) == Some(path@),
        },
{
    if !config.memory.index_enabled {
        return LexicalIndex::Disabled;
    }
    match &config.memory.index_path {
        Some(path) => LexicalIndex::Directory(path.clone()),
        None => {
            if let StorageAdapter::Ephemeral = config.storage.adapter {
                LexicalIndex::InMemory
            } else {
                LexicalIndex::Directory(with_extension(platform, config.storage.path.as_str(), "memory-index"))
            }
        },
    }
}

/// The verdict on the indexes: the directory of the lexical index, then the profiles of the semantic
/// one and its file.
pub open spec fn index_verdict(
    platform: Platform,
    config: RuntimeConfig,
    directory: Result<(), String>,
    profiles: Result<(), RuntimeError>,
    file: Result<(), String>,
) -> Verdict {
    let confined = config.storage.resolved_home_workspace is Some;
    if !config.memory.index_enabled {
        Verdict::Accept
    } else {
        let first = if confined && lexical_directory(platform, config) is Some {
            check_verdict(directory, "home-workspace derived directory is unsafe: "@)
        } else {
            Verdict::Accept
        };
        if first !is Accept {
            first
        } else if semantic_position(platform, config) is None {
            Verdict::Accept
        } else if profiles is Err {
            Verdict::Forward(profiles->Err_0)
        } else if confined {
            check_verdict(file, "home-workspace derived file is unsafe: "@)
        } else {
            Verdict::Accept
        }
    }
}

/// The indexes that a configuration asks for: one that is switched off, else the lexical one and,
/// where configured, a semantic one beside it. `directory` and `file` are what the private home says
/// of their paths, `profiles` what the adapters say of the profiles of the semantic index.
pub fn compose_memory_indexes(
    platform: Platform,
    config: &RuntimeConfig,
    directory: &Result<(), String>,
    profiles: &Result<(), RuntimeError>,
    file: &Result<(), String>,
) -> (result: Result<MemoryIndexPlan, RuntimeError>)
    ensures
        match index_verdict(platform, *config, *directory, *profiles, *file) {
            Verdict::Accept => result matches Ok(plan) && if config.memory.index_enabled {
                &&& plan.name@ == "memory.tantivy-v1"@
                &&& match plan.lexical {
                    LexicalIndex::Disabled => false,
                    LexicalIndex::InMemory => lexical_directory(platform, *config) is None,
                    LexicalIndex::Directory(path) => lexical_directory(platform, *config) == Some(path@),
                }
                &&& crate::text::optional_view(plan.position_path) == semantic_position(platform, *config)
            } else {
                plan.name@ == "memory.disabled-v1"@ && plan.lexical is Disabled && plan.position_path is None
            },
            verdict => result matches Err(error) && answers(Err::<(), RuntimeError>(error), verdict),
        },
{
    let lexical = lexical_index(platform, config);
    if let LexicalIndex::Disabled = lexical {
        return Ok(
            MemoryIndexPlan { name: "memory.disabled-v1".to_owned(), lexical, position_path: None },
        );
    }
    if let LexicalIndex::Directory(_) = lexical {
        config.revalidate_resolved_home_directory(directory)?;
    }
    let position_path = match &config.memory.semantic {
        SemanticMemoryConfig::Disabled => None,
        SemanticMemoryConfig::Chroma { position_path, .. } => {
            let path = match position_path {
                Some(path) => path.clone(),
                None => with_extension(platform, config.storage.path.as_str(), "chroma-position.json"),
            };
            if let Err(error) = profiles {
                return Err(error.clone());
            }
            config.revalidate_resolved_home_file(file)?;
            Some(path)
        },
    };
    Ok(MemoryIndexPlan { name: "memory.tantivy-v1".to_owned(), lexical, position_path })
}

/// Why a semantic index that could not be opened is unavailable.
pub fn unavailable_projection(position_path: &str, reason: &str) -> (text: String)
    ensures
        text@ == "Chroma projection metadata "@ + position_path@ + " could not open: "@ + reason@,
{
    let text = concat3("Chroma projection metadata ", position_path, " could not open: ");
    concat2(text.as_str(), reason)
}

/// Why an index that is switched off is unavailable.
pub const DISABLED_REASON: &'static str = "memory index disabled by configuration";

/// The registered name of a semantic index.
pub const SEMANTIC_INDEX: &'static str = "memory.chroma-v1";

/// The index stands where it is written, beside the state where nothing is written, and nowhere where
/// the state is the process's own.
pub proof fn indexes_stand_beside_the_state(platform: Platform, config: RuntimeConfig)
    ensures
        config.memory.index_path matches Some(path) ==> lexical_directory(platform, config) == Some(path@),
        config.memory.index_path is None && config.storage.adapter is Ephemeral ==> lexical_directory(
            platform,
            config,
        ) is None,
        config.memory.index_path is None && !(config.storage.adapter is Ephemeral) ==> lexical_directory(
            platform,
            config,
        ) == Some(extended(platform, config.storage.path@, "memory-index"@)),
        config.memory.semantic is Disabled <==> semantic_position(platform, config) is None,
        config.memory.semantic matches SemanticMemoryConfig::Chroma { position_path, .. } ==> {
            &&& position_path matches Some(path) ==> semantic_position(platform, config) == Some(path@)
            &&& position_path is None ==> semantic_position(platform, config) == Some(
                extended(platform, config.storage.path@, "chroma-position.json"@),
            )
        },
{
}

/// Indexes are composed wherever none is wanted, and otherwise exactly where what is kept at home is
/// safe and the semantic profiles hold.
pub proof fn safe_indexes_are_composed(
    platform: Platform,
    config: RuntimeConfig,
    directory: Result<(), String>,
    profiles: Result<(), RuntimeError>,
    file: Result<(), String>,
)
    ensures
        index_verdict(platform, config, directory, profiles, file) is Accept <==> {
            let confined = config.storage.resolved_home_workspace is Some;
            config.memory.index_enabled ==> {
                &&& confined && lexical_directory(platform, config) is Some ==> directory is Ok
                &&& semantic_position(platform, config) is Some ==> profiles is Ok && (confined ==> file is Ok)
            }
        },
{
}

} // verus!
