//! The fixed registry of allowed transaction scripts.
use vstd::prelude::*;
use crate::hexcode::{hex_from_bytes, hex_of, is_hex_text, lemma_hex_of_is_hex_text};

verus! {

/// The bytecode of each known script template.
pub struct ScriptBytecodes {
    pub peer_to_peer: Vec<u8>,
    pub create_account: Vec<u8>,
    pub mint: Vec<u8>,
    pub rotate_authentication_key: Vec<u8>,
}

/// One registry entry: a script's name and the hex text of its bytecode.
pub struct ScriptEntry {
    pub name: String,
    pub hex: String,
}

impl View for ScriptEntry {
    type V = (Seq<char>, Seq<char>);

    open spec fn view(&self) -> (Seq<char>, Seq<char>) {
        (self.name@, self.hex@)
    }
}

/// The registry as (name, hex text) pairs, each name bound to its own script.
pub open spec fn registry_view(s: &ScriptBytecodes) -> Seq<(Seq<char>, Seq<char>)> {
    seq![
        ("peer_to_peer_transaction"@, hex_of(s.peer_to_peer@)),
        ("create_account_transaction"@, hex_of(s.create_account@)),
        ("mint_transaction"@, hex_of(s.mint@)),
        ("rotate_authentication_key_transaction"@, hex_of(s.rotate_authentication_key@)),
    ]
}

/// The view of a list of entries.
pub open spec fn entries_view(r: Seq<ScriptEntry>) -> Seq<(Seq<char>, Seq<char>)> {
    r.map_values(|e: ScriptEntry| e@)
}

/// The allowed scripts, each name paired with the hex text of its own
/// bytecode.
pub fn get_allowed_scripts(scripts: &ScriptBytecodes) -> (r: Vec<ScriptEntry>)
    ensures
        entries_view(r@) == registry_view(scripts),
{
    let mut r: Vec<ScriptEntry> = Vec::new();
    r.push(ScriptEntry {
        name: String::from_str("peer_to_peer_transaction"),
        hex: hex_from_bytes(scripts.peer_to_peer.as_slice()),
    });
    r.push(ScriptEntry {
        name: String::from_str("create_account_transaction"),
        hex: hex_from_bytes(scripts.create_account.as_slice()),
    });
    r.push(ScriptEntry {
        name: String::from_str("mint_transaction"),
        hex: hex_from_bytes(scripts.mint.as_slice()),
    });
    r.push(ScriptEntry {
        name: String::from_str("rotate_authentication_key_transaction"),
        hex: hex_from_bytes(scripts.rotate_authentication_key.as_slice()),
    });
    assert(entries_view(r@) =~= registry_view(scripts));
    r
}

/// Two readings of the registry over the same scripts agree entry for entry,
/// and every entry holds well-formed hex text of its own script's bytecode.
pub proof fn lemma_registry_stable(
    scripts: &ScriptBytecodes,
    r1: Seq<ScriptEntry>,
    r2: Seq<ScriptEntry>,
)
    requires
        entries_view(r1) == registry_view(scripts),
        entries_view(r2) == registry_view(scripts),
    ensures
        entries_view(r1) == entries_view(r2),
        r1.len() == 4,
        forall|i: int| 0 <= i < 4 ==> is_hex_text(#[trigger] r1[i].hex@),
        r1[2].name@ == "mint_transaction"@ && r1[2].hex@ == hex_of(scripts.mint@),
        r1[3].name@ == "rotate_authentication_key_transaction"@
            && r1[3].hex@ == hex_of(scripts.rotate_authentication_key@),
{
    lemma_hex_of_is_hex_text(scripts.peer_to_peer@);
    lemma_hex_of_is_hex_text(scripts.create_account@);
    lemma_hex_of_is_hex_text(scripts.mint@);
    lemma_hex_of_is_hex_text(scripts.rotate_authentication_key@);
    assert(r1.len() == entries_view(r1).len());
    assert forall|i: int| 0 <= i < 4 implies is_hex_text(#[trigger] r1[i].hex@) by {
        assert(entries_view(r1)[i] == r1[i]@);
    }
    assert(entries_view(r1)[2] == r1[2]@);
    assert(entries_view(r1)[3] == r1[3]@);
}

} // verus!
