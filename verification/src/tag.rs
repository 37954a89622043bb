//! The tag by which the host names each kind of structure, and the way back
//! from a tag to the kind.

use crate::kind::{lemma_all_kinds_is_complete, StructureKind};
use vstd::prelude::*;
use vstd::string::StringSliceAdditionalSpecFns;
use vstd::utf8::encode_utf8_decode_utf8;

verus! {

/// The kind that `tag` names: the one kind whose tag it is, or `None` where it
/// is the tag of no kind.
pub open spec fn kind_of_tag(tag: Seq<char>) -> Option<StructureKind> {
    if exists|kind: StructureKind| kind.spec_tag() == tag {
        Some(choose|kind: StructureKind| kind.spec_tag() == tag)
    } else {
        None
    }
}

/// Says whether two strings hold the same text.
pub fn same_text(a: &str, b: &str) -> (r: bool)
    ensures
        r == (a@ == b@),
{
    let x = a.as_bytes();
    let y = b.as_bytes();
    if x.len() != y.len() {
        return false;
    }
    let mut i: usize = 0;
    while i < x.len()
        invariant
            i <= x.len(),
            x.len() == y.len(),
            x@ == a.spec_bytes(),
            y@ == b.spec_bytes(),
            forall|j: int| 0 <= j < i ==> x@[j] == y@[j],
        decreases x.len() - i,
    {
        if x[i] != y[i] {
            return false;
        }
        i += 1;
    }
    proof {
        // Equal bytes decode to equal text.
        assert(a.spec_bytes() =~= b.spec_bytes());
        encode_utf8_decode_utf8(a@);
        encode_utf8_decode_utf8(b@);
    }
    true
}

impl StructureKind {
    /// The tag of each kind, as the host writes it.
    pub open spec fn spec_tag(self) -> Seq<char> {
        match self {
            StructureKind::Container => "container"@,
            StructureKind::Controller => "controller"@,
            StructureKind::Extension => "extension"@,
            StructureKind::Extractor => "extractor"@,
            StructureKind::KeeperLair => "keeperLair"@,
            StructureKind::Lab => "lab"@,
            StructureKind::Link => "link"@,
            StructureKind::Nuker => "nuker"@,
            StructureKind::Observer => "observer"@,
            StructureKind::PowerBank => "powerBank"@,
            StructureKind::PowerSpawn => "powerSpawn"@,
            StructureKind::Portal => "portal"@,
            StructureKind::Rampart => "rampart"@,
            StructureKind::Road => "road"@,
            StructureKind::Spawn => "spawn"@,
            StructureKind::Storage => "storage"@,
            StructureKind::Terminal => "terminal"@,
            StructureKind::Tower => "tower"@,
            StructureKind::Wall => "wall"@,
        }
    }

    /// The tag by which the host names this kind.
    pub fn tag(self) -> (t: &'static str)
        ensures
            t@ == self.spec_tag(),
        no_unwind
    {
        match self {
            StructureKind::Container => "container",
            StructureKind::Controller => "controller",
            StructureKind::Extension => "extension",
            StructureKind::Extractor => "extractor",
            StructureKind::KeeperLair => "keeperLair",
            StructureKind::Lab => "lab",
            StructureKind::Link => "link",
            StructureKind::Nuker => "nuker",
            StructureKind::Observer => "observer",
            StructureKind::PowerBank => "powerBank",
            StructureKind::PowerSpawn => "powerSpawn",
            StructureKind::Portal => "portal",
            StructureKind::Rampart => "rampart",
            StructureKind::Road => "road",
            StructureKind::Spawn => "spawn",
            StructureKind::Storage => "storage",
            StructureKind::Terminal => "terminal",
            StructureKind::Tower => "tower",
            StructureKind::Wall => "wall",
        }
    }

    /// Finds the kind that `tag` names, by going through the kinds and their
    /// tags. The comparison is exact: a tag in another case, or with
    /// anything before or after it, names no kind.
    pub fn from_tag(tag: &str) -> (r: Option<StructureKind>)
        ensures
            r == kind_of_tag(tag@),
    {
        let kinds = StructureKind::all();
        let mut i: usize = 0;
        while i < kinds.len()
            invariant
                i <= kinds@.len(),
                kinds@ == StructureKind::spec_all(),
                forall|j: int| 0 <= j < i ==> kinds@[j].spec_tag() != tag@,
            decreases kinds@.len() - i,
        {
            let kind = kinds[i];
            if same_text(tag, kind.tag()) {
                proof {
                    lemma_tag_names_its_kind(kind);
                }
                return Some(kind);
            }
            i += 1;
        }
        proof {
            // Every kind is in the list, and the tag of none in the list
            // was the one.
            assert forall|kind: StructureKind| kind.spec_tag() != tag@ by {
                lemma_all_kinds_is_complete(kind);
                let j = choose|j: int| 0 <= j < kinds@.len() && kinds@[j] == kind;
                assert(kinds@[j].spec_tag() != tag@);
            }
        }
        None
    }
}

/// No two kinds share a tag.
pub proof fn lemma_tags_are_distinct(a: StructureKind, b: StructureKind)
    ensures
        a.spec_tag() == b.spec_tag() <==> a == b,
{
    reveal_strlit("container");
    reveal_strlit("controller");
    reveal_strlit("extension");
    reveal_strlit("extractor");
    reveal_strlit("keeperLair");
    reveal_strlit("lab");
    reveal_strlit("link");
    reveal_strlit("nuker");
    reveal_strlit("observer");
    reveal_strlit("powerBank");
    reveal_strlit("powerSpawn");
    reveal_strlit("portal");
    reveal_strlit("rampart");
    reveal_strlit("road");
    reveal_strlit("spawn");
    reveal_strlit("storage");
    reveal_strlit("terminal");
    reveal_strlit("tower");
    reveal_strlit("wall");
    if a.spec_tag() == b.spec_tag() {
        // Any two tags differ in their length or in one of their first four
        // letters.
        assert(a.spec_tag().len() == b.spec_tag().len());
        assert(a.spec_tag()[0] == b.spec_tag()[0]);
        assert(a.spec_tag()[1] == b.spec_tag()[1]);
        assert(a.spec_tag()[2] == b.spec_tag()[2]);
        assert(a.spec_tag()[3] == b.spec_tag()[3]);
    }
}

/// The tag of a kind names that kind.
pub proof fn lemma_tag_names_its_kind(kind: StructureKind)
    ensures
        kind_of_tag(kind.spec_tag()) == Some(kind),
{
    let found = choose|k: StructureKind| k.spec_tag() == kind.spec_tag();
    lemma_tags_are_distinct(found, kind);
}

} // verus!
