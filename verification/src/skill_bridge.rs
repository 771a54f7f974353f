//! Where the workspace skills of a conversation are staged for the agent's skill loader.
//!
//! The loader only scans `<root>/.aionrs/skills`, while workspaces keep their skills in
//! `.zigo/skills`; the staged copy lives outside the workspace, next to the sessions.

use vstd::prelude::*;

use crate::db::{hex_lower, hex_sha256, hex_sha256_of, lemma_hex_len, lemma_hex_lower_injective, sha256};
use vstd::utf8::encode_utf8;
use crate::workspace::{join_path, path_join};

verus! {

/// Where a conversation's workspace skills are read from and staged to.
pub struct SkillBridgeLayout {
    /// The skills of the workspace: `<workspace>/.zigo/skills`.
    pub source: String,
    /// The staging root handed to the loader:
    /// `<data_dir>/aionrs-skill-bridges/<hex SHA-256 of the conversation id>`.
    pub stage_root: String,
    /// Where the skills are copied: `<stage_root>/.aionrs/skills`.
    pub stage_skills: String,
}

/// The staging root of a conversation under the data directory.
pub open spec fn stage_root_of(data_dir: Seq<char>, conversation_id: Seq<char>) -> Seq<char> {
    path_join(path_join(data_dir, "aionrs-skill-bridges"@), hex_sha256_of(conversation_id))
}

/// Where the skills of `workspace` are staged for `conversation_id`, with `data_dir`
/// the directory that holds the agent's session directory.
pub fn skill_bridge_layout(workspace: &str, data_dir: &str, conversation_id: &str) -> (l: SkillBridgeLayout)
    ensures
        l.source@ == path_join(path_join(workspace@, ".zigo"@), "skills"@),
        l.stage_root@ == stage_root_of(data_dir@, conversation_id@),
        l.stage_skills@ == path_join(
            path_join(stage_root_of(data_dir@, conversation_id@), ".aionrs"@),
            "skills"@,
        ),
{
    let zigo = join_path(workspace, ".zigo");
    let source = join_path(zigo.as_str(), "skills");
    let key = hex_sha256(conversation_id);
    let bridges = join_path(data_dir, "aionrs-skill-bridges");
    let stage_root = join_path(bridges.as_str(), key.as_str());
    let dot = join_path(stage_root.as_str(), ".aionrs");
    let stage_skills = join_path(dot.as_str(), "skills");
    SkillBridgeLayout { source, stage_root, stage_skills }
}

/// How the removal of an earlier staged copy went.
pub enum StageRemoval {
    Removed,
    /// There was no earlier copy.
    Absent,
    Failed(std::io::Error),
}

/// Whether staging goes on after removing the earlier copy: a copy that was removed or
/// never existed is fine; any other failure ends the staging with that error.
pub fn after_stage_removal(removal: StageRemoval) -> (r: Result<(), std::io::Error>)
    ensures
        match removal {
            StageRemoval::Failed(e) => r == Err::<(), std::io::Error>(e),
            _ => r is Ok,
        },
{
    match removal {
        StageRemoval::Failed(e) => Err(e),
        _ => Ok(()),
    }
}

// ----- laws -----

/// A conversation is staged in its own directory: the staging root is the bridges
/// directory of the data directory followed by the hexadecimal SHA-256 digest of the
/// conversation id, so two conversations share a staging root only where the digests
/// of their ids are equal.
pub proof fn law_stage_root_names_conversation(data_dir: Seq<char>, c1: Seq<char>, c2: Seq<char>)
    ensures
        stage_root_of(data_dir, c1) == path_join(data_dir, "aionrs-skill-bridges"@) + seq!['/']
            + hex_lower(sha256(encode_utf8(c1))),
        stage_root_of(data_dir, c1) == stage_root_of(data_dir, c2) ==> sha256(encode_utf8(c1)) == sha256(
            encode_utf8(c2),
        ),
{
    reveal_strlit("aionrs-skill-bridges");
    let base = path_join(data_dir, "aionrs-skill-bridges"@);
    assert(base.last() == 's');
    let h1 = hex_lower(sha256(encode_utf8(c1)));
    let h2 = hex_lower(sha256(encode_utf8(c2)));
    lemma_hex_len(sha256(encode_utf8(c1)));
    lemma_hex_len(sha256(encode_utf8(c2)));
    if h1.len() > 0 {
        assert(crate::db::is_lower_hex_digit(h1[0]));
    }
    if h2.len() > 0 {
        assert(crate::db::is_lower_hex_digit(h2[0]));
    }
    let r1 = stage_root_of(data_dir, c1);
    let r2 = stage_root_of(data_dir, c2);
    assert(r1 == base + seq!['/'] + h1);
    assert(r2 == base + seq!['/'] + h2);
    if r1 == r2 {
        assert(h1 =~= r1.skip(base.len() + 1int));
        assert(h2 =~= r2.skip(base.len() + 1int));
        lemma_hex_lower_injective(sha256(encode_utf8(c1)), sha256(encode_utf8(c2)));
    }
}

} // verus!
