//! The command line: the arguments of each command, and the checks that every
//! command applies to the version and to namespaced identifiers.

use vstd::prelude::*;

use crate::error::{is_usage_error, Error};

verus! {

/// Minecraft Java 26.1.2 structure container and loot finder.
#[derive(Clone, Debug)]
pub struct Cli {
    pub command: Command,
}

/// The commands of the tool.
#[derive(Clone, Debug)]
pub enum Command {
    /// List possible structure chunks without full verification.
    Candidates(SearchArgs),
    /// Verify structures and list their block containers.
    Chests(SearchArgs),
    /// Find containers that generate the requested item.
    Find(FindArgs),
    /// Replay one supported loot table.
    Loot(LootArgs),
    /// Calculate a seed for supported shortcut structures.
    ContainerSeed(ContainerSeedArgs),
    /// Show defaults, supported structures, and loot tables.
    Explain(ExplainArgs),
}

/// Options that every command takes.
#[derive(Clone, Debug)]
pub struct CommonArgs {
    /// Minecraft version to target; only 26.1.2 is supported.
    pub version: String,
    /// Emit machine-readable JSON.
    pub json: bool,
}

/// Options of the commands that search an area.
#[derive(Clone, Debug)]
pub struct SearchArgs {
    pub common: CommonArgs,
    /// World seed.
    pub seed: i64,
    /// Structure to search for.
    pub structure: String,
    /// Center of the search area on the X axis.
    pub center_x: i32,
    /// Center of the search area on the Z axis.
    pub center_z: i32,
    /// Search radius in blocks.
    pub radius: Option<i32>,
    /// Maximum number of results to display.
    pub limit: Option<i32>,
}

/// Options of `find`.
#[derive(Clone, Debug)]
pub struct FindArgs {
    pub search: SearchArgs,
    /// Item to search for.
    pub item: Option<String>,
}

/// Options of `loot`.
#[derive(Clone, Debug)]
pub struct LootArgs {
    pub common: CommonArgs,
    /// Loot table seed.
    pub loot_seed: i64,
    /// Loot table to replay.
    pub table: String,
}

/// Options of `container-seed`.
#[derive(Clone, Debug)]
pub struct ContainerSeedArgs {
    pub common: CommonArgs,
    /// Structure to calculate the seed for.
    pub structure: String,
    /// World seed.
    pub seed: i64,
    /// Structure or decoration chunk X coordinate.
    pub chunk_x: i32,
    /// Structure or decoration chunk Z coordinate.
    pub chunk_z: i32,
    /// Structure index override.
    pub structure_index: Option<i32>,
    /// Decoration step override.
    pub step: Option<i32>,
    /// Container ordinal within the chunk.
    pub ordinal: i32,
}

/// Options of `explain`.
#[derive(Clone, Debug)]
pub struct ExplainArgs {
    pub common: CommonArgs,
    /// Structure to describe in detail.
    pub structure: Option<String>,
}

/// The only Minecraft version that the tool supports.
pub open spec fn supported_version() -> Seq<char> {
    seq!['2', '6', '.', '1', '.', '2']
}

/// The message for an unsupported version.
pub open spec fn unsupported_version_text(version: Seq<char>) -> Seq<char> {
    "unsupported Minecraft version: "@ + version + "; supported: 26.1.2"@
}

/// Accepts the supported version and refuses every other one.
pub fn require_version(version: &str) -> (result: Result<(), Error>)
    ensures
        version@ == supported_version() ==> result is Ok,
        version@ != supported_version() ==> is_usage_error(
            result,
            unsupported_version_text(version@),
        ),
{
    proof {
        reveal_strlit("26.1.2");
        assert("26.1.2"@ =~= supported_version());
    }
    if crate::strings::str_eq(version, "26.1.2") {
        Ok(())
    } else {
        let mut message = "unsupported Minecraft version: ".to_owned();
        message.append(version);
        message.append("; supported: 26.1.2");
        proof {
            assert(message@ =~= unsupported_version_text(version@));
        }
        Err(Error::Usage(message))
    }
}

/// A character that a namespace may hold: `[a-z0-9_.-]`.
pub open spec fn namespace_char(c: char) -> bool {
    ('a' <= c && c <= 'z') || ('0' <= c && c <= '9') || c == '_' || c == '.' || c == '-'
}

/// A character that a path may hold: `[a-z0-9_./-]`.
pub open spec fn path_char(c: char) -> bool {
    namespace_char(c) || c == '/'
}

/// The position of the first `:` in `s`, if any.
pub open spec fn first_colon(s: Seq<char>) -> Option<int>
    decreases s.len(),
{
    if s.len() == 0 {
        None
    } else {
        match first_colon(s.drop_last()) {
            Some(i) => Some(i),
            None => if s.last() == ':' {
                Some(s.len() - 1)
            } else {
                None
            },
        }
    }
}

/// Whether `s` is a namespaced identifier `namespace:path`, split at its first
/// `:`, with a non-empty namespace of namespace characters and a non-empty path
/// of path characters.
pub open spec fn is_identifier(s: Seq<char>) -> bool {
    match first_colon(s) {
        None => false,
        Some(i) => {
            &&& 0 < i
            &&& i + 1 < s.len()
            &&& forall|k: int| 0 <= k < i ==> namespace_char(#[trigger] s[k])
            &&& forall|k: int| i < k < s.len() ==> path_char(#[trigger] s[k])
        },
    }
}

/// The message for a value that is not a namespaced identifier.
pub open spec fn not_identifier_text(option: Seq<char>) -> Seq<char> {
    option + " must be a namespaced Minecraft id"@
}

/// The first `:` of `s` lies at `i` when no `:` comes before it.
proof fn lemma_first_colon_at(s: Seq<char>, i: int)
    requires
        0 <= i < s.len(),
        s[i] == ':',
        forall|k: int| 0 <= k < i ==> s[k] != ':',
    ensures
        first_colon(s) == Some(i),
    decreases s.len(),
{
    if i < s.len() - 1 {
        lemma_first_colon_at(s.drop_last(), i);
    } else {
        lemma_no_colon(s.drop_last());
    }
}

/// A sequence without `:` has no first `:`.
proof fn lemma_no_colon(s: Seq<char>)
    requires
        forall|k: int| 0 <= k < s.len() ==> s[k] != ':',
    ensures
        first_colon(s) is None,
    decreases s.len(),
{
    if s.len() > 0 {
        lemma_no_colon(s.drop_last());
    }
}

/// Accepts a namespaced Minecraft identifier such as `minecraft:chests/igloo_chest`;
/// `option` names the option that the value came from, for the error.
pub fn require_identifier(value: &str, option: &str) -> (result: Result<(), Error>)
    ensures
        is_identifier(value@) ==> result is Ok,
        !is_identifier(value@) ==> is_usage_error(result, not_identifier_text(option@)),
{
    let n = value.unicode_len();
    let mut colon: usize = 0;
    while colon < n && value.get_char(colon) != ':'
        invariant
            n == value@.len(),
            colon <= n,
            forall|k: int| 0 <= k < colon ==> value@[k] != ':',
        decreases n - colon,
    {
        colon = colon + 1;
    }
    proof {
        if colon < n {
            lemma_first_colon_at(value@, colon as int);
        } else {
            lemma_no_colon(value@);
        }
    }
    let mut valid = colon < n && 0 < colon && colon + 1 < n;
    let mut k: usize = 0;
    while k < n
        invariant
            n == value@.len(),
            colon <= n,
            forall|j: int| 0 <= j < colon ==> value@[j] != ':',
            colon < n ==> value@[colon as int] == ':',
            k <= n,
            valid ==> (colon < n && 0 < colon && colon + 1 < n),
            valid ==> forall|j: int| 0 <= j < k && j < colon ==> namespace_char(#[trigger] value@[j]),
            valid ==> forall|j: int| 0 <= j < k && colon < j ==> path_char(#[trigger] value@[j]),
            !valid ==> !is_identifier(value@),
        decreases n - k,
    {
        if valid {
            let c = value.get_char(k);
            let lower = 'a' <= c && c <= 'z';
            let digit = '0' <= c && c <= '9';
            let ok = if k < colon {
                lower || digit || c == '_' || c == '.' || c == '-'
            } else if k > colon {
                lower || digit || c == '_' || c == '.' || c == '-' || c == '/'
            } else {
                true
            };
            if !ok {
                proof {
                    lemma_first_colon_at(value@, colon as int);
                    assert(value@[k as int] == c);
                }
                valid = false;
            }
        }
        k = k + 1;
    }
    proof {
        if colon < n {
            lemma_first_colon_at(value@, colon as int);
        } else {
            lemma_no_colon(value@);
        }
    }
    if valid {
        Ok(())
    } else {
        let mut message = String::new();
        message.append(option);
        message.append(" must be a namespaced Minecraft id");
        proof {
            assert(message@ =~= not_identifier_text(option@));
        }
        Err(Error::Usage(message))
    }
}

} // verus!
