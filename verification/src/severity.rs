//! Which findings a severity floor lets through.
//!
//! The backend grades findings from 1, the gravest, to 5. A finding without
//! a grade counts as 0.

use vstd::prelude::*;
use crate::json::{i64_member, json_of, jsons_of, Json};
use crate::pecker::Pecker;
use crate::text::same_text;

verus! {

/// The grade of a finding.
pub open spec fn severity_level(doc: Json) -> int {
    match doc.i64_member("severityLevel"@) {
        Some(level) => level as int,
        None => 0,
    }
}

/// A severity floor.
#[derive(Debug, Clone, Copy, PartialEq, Eq, Structural)]
pub enum Severity {
    Info,
    Low,
    Medium,
    High,
    Critical,
}

impl Severity {
    /// The keyword of the floor.
    pub open spec fn name(self) -> Seq<char> {
        match self {
            Severity::Info => "info"@,
            Severity::Low => "low"@,
            Severity::Medium => "medium"@,
            Severity::High => "high"@,
            Severity::Critical => "critical"@,
        }
    }

    /// The floor that a keyword names, if it names one.
    pub open spec fn named(word: Seq<char>) -> Option<Severity> {
        if word == "info"@ {
            Some(Severity::Info)
        } else if word == "low"@ {
            Some(Severity::Low)
        } else if word == "medium"@ {
            Some(Severity::Medium)
        } else if word == "high"@ {
            Some(Severity::High)
        } else if word == "critical"@ {
            Some(Severity::Critical)
        } else {
            None
        }
    }

    /// Whether the floor lets a grade through. The floors `info`, `low`,
    /// `medium` and `high` let through every grade up to 5, 4, 3 and 2;
    /// `critical` lets through grade 1 alone.
    pub open spec fn admits(self, level: int) -> bool {
        match self {
            Severity::Info => level <= 5,
            Severity::Low => level <= 4,
            Severity::Medium => level <= 3,
            Severity::High => level <= 2,
            Severity::Critical => level == 1,
        }
    }

    /// The floor that a keyword names, if it names one.
    pub fn parse(word: &str) -> (r: Option<Severity>)
        ensures
            r == Severity::named(word@),
    {
        if same_text(word, "info") {
            Some(Severity::Info)
        } else if same_text(word, "low") {
            Some(Severity::Low)
        } else if same_text(word, "medium") {
            Some(Severity::Medium)
        } else if same_text(word, "high") {
            Some(Severity::High)
        } else if same_text(word, "critical") {
            Some(Severity::Critical)
        } else {
            None
        }
    }

    /// Whether the floor lets a grade through.
    pub fn lets(self, level: i64) -> (r: bool)
        ensures
            r == self.admits(level as int),
    {
        match self {
            Severity::Info => level <= 5,
            Severity::Low => level <= 4,
            Severity::Medium => level <= 3,
            Severity::High => level <= 2,
            Severity::Critical => level == 1,
        }
    }
}

/// Whether a floor, given by its keyword, lets a grade through. A word that
/// names no floor lets nothing through.
pub open spec fn keeps(severity: Seq<char>, level: int) -> bool {
    match Severity::named(severity) {
        Some(floor) => floor.admits(level),
        None => false,
    }
}

/// Whether a floor lets a finding through.
pub open spec fn selects(severity: Seq<char>) -> spec_fn(Json) -> bool {
    |doc: Json| keeps(severity, severity_level(doc))
}

/// The findings that a floor lets through, in their order.
pub open spec fn filtered(docs: Seq<Json>, severity: Seq<char>) -> Seq<Json> {
    docs.filter(selects(severity))
}

/// Every floor is named by its own keyword, and by no other.
pub proof fn keywords_differ()
    ensures
        forall|s: Severity| Severity::named(#[trigger] s.name()) == Some(s),
{
    reveal_strlit("info");
    reveal_strlit("low");
    reveal_strlit("medium");
    reveal_strlit("high");
    reveal_strlit("critical");
    assert forall|s: Severity| Severity::named(#[trigger] s.name()) == Some(s) by {
        assert("info"@.len() == 4 && "info"@[0] == 'i');
        assert("low"@.len() == 3);
        assert("medium"@.len() == 6);
        assert("high"@.len() == 4 && "high"@[0] == 'h');
        assert("critical"@.len() == 8);
    }
}

/// The grade of a finding.
pub fn level_of(finding: &serde_json::Value) -> (r: i64)
    ensures
        r == severity_level(json_of(*finding)),
{
    match i64_member(finding, "severityLevel") {
        Some(level) => level,
        None => 0,
    }
}

impl Pecker {
    /// Keeps the findings that the floor `severity` lets through, in their
    /// order, and drops the others. A word that names no floor keeps none.
    pub fn filter_by_severity(&self, severity: &str, all_defects: Vec<serde_json::Value>) -> (r:
        Vec<serde_json::Value>)
        ensures
            jsons_of(r@) == filtered(jsons_of(all_defects@), severity@),
            r@ == all_defects@.filter(|v: serde_json::Value| selects(severity@)(json_of(v))),
            Severity::named(severity@) is None ==> r@.len() == 0,
    {
        let floor = Severity::parse(severity);
        let ghost items = all_defects@;
        let ghost docs = jsons_of(items);
        let ghost pick = |v: serde_json::Value| selects(severity@)(json_of(v));
        let mut kept: Vec<serde_json::Value> = Vec::new();
        assert(items.take(0).filter(pick) =~= Seq::empty()) by {
            reveal(Seq::filter);
        }
        assert(docs.take(0).filter(selects(severity@)) =~= Seq::empty()) by {
            reveal(Seq::filter);
        }
        assert(jsons_of(kept@) =~= Seq::empty());
        for finding in it: all_defects
            invariant
                it.seq() == items,
                docs == jsons_of(items),
                forall|v: serde_json::Value| #[trigger] pick(v) == selects(severity@)(json_of(v)),
                floor == Severity::named(severity@),
                kept@ == items.take(it.index() as int).filter(pick),
                jsons_of(kept@) == docs.take(it.index() as int).filter(selects(severity@)),
                floor is None ==> kept@.len() == 0,
        {
            let ghost before = items.take(it.index() as int);
            let ghost docs_before = docs.take(it.index() as int);
            proof {
                assert(items.take(it.index() + 1) =~= before.push(finding));
                assert(docs.take(it.index() + 1) =~= docs_before.push(json_of(finding)));
                before.lemma_filter_push(finding, pick);
                docs_before.lemma_filter_push(json_of(finding), selects(severity@));
            }
            let passes = match floor {
                Some(s) => s.lets(level_of(&finding)),
                None => false,
            };
            assert(passes == keeps(severity@, severity_level(json_of(finding))));
            if passes {
                let ghost kept_before = kept@;
                kept.push(finding);
                assert(jsons_of(kept@) =~= jsons_of(kept_before).push(json_of(finding)));
            }
        }
        proof {
            assert(items.take(items.len() as int) =~= items);
            assert(docs.take(docs.len() as int) =~= docs);
        }
        kept
    }
}

/// Where one floor lets through whatever another one does, the findings
/// that the stricter floor keeps are those that it keeps of what the other
/// one kept, in the same order.
pub proof fn stricter_floor_refines(docs: Seq<Json>, wide: Seq<char>, strict: Seq<char>)
    requires
        forall|level: int| keeps(strict, level) ==> keeps(wide, level),
    ensures
        filtered(docs, strict) == filtered(filtered(docs, wide), strict),
        forall|doc: Json|
            filtered(docs, strict).contains(doc) ==> filtered(docs, wide).contains(doc),
    decreases docs.len(),
{
    reveal(Seq::filter);
    if docs.len() > 0 {
        let front = docs.drop_last();
        let last = docs.last();
        stricter_floor_refines(front, wide, strict);
        assert(docs =~= front.push(last));
        front.lemma_filter_push(last, selects(strict));
        front.lemma_filter_push(last, selects(wide));
        filtered(front, wide).lemma_filter_push(last, selects(strict));
        if keeps(strict, severity_level(last)) {
            assert(keeps(wide, severity_level(last)));
        }
    }
    assert forall|doc: Json| filtered(docs, strict).contains(doc) implies filtered(
        docs,
        wide,
    ).contains(doc) by {
        filtered(docs, wide).lemma_filter_contains_rev(selects(strict), doc);
    }
}

/// The floors nest: on any findings, `info` keeps whatever `low` keeps,
/// `low` whatever `medium` keeps, `medium` whatever `high` keeps, and `high`
/// whatever `critical` keeps. Each stricter floor keeps exactly what it
/// would keep of the next wider floor's findings, so order is kept too.
pub proof fn severity_floors_nest(docs: Seq<Json>)
    ensures
        forall|doc: Json|
            filtered(docs, "low"@).contains(doc) ==> filtered(docs, "info"@).contains(doc),
        forall|doc: Json|
            filtered(docs, "medium"@).contains(doc) ==> filtered(docs, "low"@).contains(doc),
        forall|doc: Json|
            filtered(docs, "high"@).contains(doc) ==> filtered(docs, "medium"@).contains(doc),
        forall|doc: Json|
            filtered(docs, "critical"@).contains(doc) ==> filtered(docs, "high"@).contains(doc),
        filtered(docs, "low"@) == filtered(filtered(docs, "info"@), "low"@),
        filtered(docs, "medium"@) == filtered(filtered(docs, "low"@), "medium"@),
        filtered(docs, "high"@) == filtered(filtered(docs, "medium"@), "high"@),
        filtered(docs, "critical"@) == filtered(filtered(docs, "high"@), "critical"@),
{
    keywords_differ();
    assert(Severity::named(Severity::Info.name()) == Some(Severity::Info));
    assert(Severity::named(Severity::Low.name()) == Some(Severity::Low));
    assert(Severity::named(Severity::Medium.name()) == Some(Severity::Medium));
    assert(Severity::named(Severity::High.name()) == Some(Severity::High));
    assert(Severity::named(Severity::Critical.name()) == Some(Severity::Critical));
    stricter_floor_refines(docs, "info"@, "low"@);
    stricter_floor_refines(docs, "low"@, "medium"@);
    stricter_floor_refines(docs, "medium"@, "high"@);
    stricter_floor_refines(docs, "high"@, "critical"@);
}

/// The floor `critical` keeps the findings of grade 1 and no others, and a
/// word that names no floor keeps nothing.
pub proof fn severity_edges(docs: Seq<Json>, word: Seq<char>)
    ensures
        forall|i: int|
            0 <= i < filtered(docs, "critical"@).len() ==> severity_level(
                #[trigger] filtered(docs, "critical"@)[i],
            ) == 1,
        forall|i: int|
            0 <= i < docs.len() && severity_level(docs[i]) == 1 ==> filtered(
                docs,
                "critical"@,
            ).contains(#[trigger] docs[i]),
        Severity::named(word) is None ==> filtered(docs, word).len() == 0,
{
    keywords_differ();
    let critical = selects("critical"@);
    assert(Severity::named(Severity::Critical.name()) == Some(Severity::Critical));
    assert forall|i: int| 0 <= i < filtered(docs, "critical"@).len() implies severity_level(
        #[trigger] filtered(docs, "critical"@)[i],
    ) == 1 by {
        docs.lemma_filter_pred(critical, i);
    }
    assert forall|i: int| 0 <= i < docs.len() && severity_level(docs[i]) == 1 implies filtered(
        docs,
        "critical"@,
    ).contains(#[trigger] docs[i]) by {
        docs.lemma_filter_contains(critical, i);
    }
    if Severity::named(word) is None {
        docs.lemma_all_neg_filter_empty(selects(word));
    }
}

} // verus!
