//! The wire-contract catalog.
//!
//! A closed, compile-time-fixed registry of every endpoint and topic the
//! device speaks, each bound to a unique path and, for inbound operations,
//! to an execution discipline. Resolution of a path to its operation is the
//! first step of dispatch; `lemma_catalog_paths_unique` shows that no two
//! rows of the registry share a path, and `lemma_resolve_registered` that
//! every row resolves to its own operation.

use crate::strutil::str_eq;
use vstd::prelude::*;

verus! {

/// Number of `nebula/sleep` handler instances that may be in flight at once.
pub const SLEEP_POOL: u8 = 3;

/// Identifier of one operation of the wire contract.
#[derive(Debug, Clone, Copy, PartialEq, Eq, Structural)]
pub enum OpId {
    UniqueIdGet,
    PicobootReset,
    Sleep,
    LedSet,
    InfoGet,
    JobIn,
    StopIn,
    AsicTempOut,
    ShareOut,
}

/// How an inbound operation's handler runs.
#[derive(Debug, Clone, Copy, PartialEq, Eq, Structural)]
pub enum Discipline {
    /// Synchronously on the dispatch context; may touch shared device state.
    Immediate,
    /// Spawned onto a bounded pool with `pool` slots; replies on its own.
    Deferred { pool: u8 },
}

/// Kind and direction of an operation.
#[derive(Debug, Clone, Copy, PartialEq, Eq, Structural)]
pub enum OpKind {
    /// Caller-initiated request/response operation.
    Endpoint(Discipline),
    /// Host-to-device message, handled on the dispatch context.
    TopicIn,
    /// Device-to-host message; the device publishes, nothing dispatches it.
    TopicOut,
}

/// One row of the registry.
#[derive(Debug, Clone, Copy, PartialEq, Eq)]
pub struct CatalogEntry {
    pub id: OpId,
    pub path: &'static str,
    pub kind: OpKind,
}

/// The full registry, in a fixed order.
pub open spec fn spec_catalog() -> Seq<CatalogEntry> {
    seq![
        CatalogEntry {
            id: OpId::UniqueIdGet,
            path: "poststation/unique_id/get",
            kind: OpKind::Endpoint(Discipline::Immediate),
        },
        CatalogEntry {
            id: OpId::PicobootReset,
            path: "picoboot/reset",
            kind: OpKind::Endpoint(Discipline::Immediate),
        },
        CatalogEntry {
            id: OpId::Sleep,
            path: "nebula/sleep",
            kind: OpKind::Endpoint(Discipline::Deferred { pool: SLEEP_POOL }),
        },
        CatalogEntry {
            id: OpId::LedSet,
            path: "nebula/led/set",
            kind: OpKind::Endpoint(Discipline::Immediate),
        },
        CatalogEntry {
            id: OpId::InfoGet,
            path: "nebula/info",
            kind: OpKind::Endpoint(Discipline::Immediate),
        },
        CatalogEntry { id: OpId::JobIn, path: "/nebula/job", kind: OpKind::TopicIn },
        CatalogEntry { id: OpId::StopIn, path: "/nebula/stop", kind: OpKind::TopicIn },
        CatalogEntry { id: OpId::AsicTempOut, path: "/nebula/asic_temp", kind: OpKind::TopicOut },
        CatalogEntry { id: OpId::ShareOut, path: "/nebula/share", kind: OpKind::TopicOut },
    ]
}

/// The registry as a value, for callers that want to walk it.
pub fn catalog() -> (v: Vec<CatalogEntry>)
    ensures
        v@ == spec_catalog(),
{
    let mut v: Vec<CatalogEntry> = Vec::new();
    v.push(
        CatalogEntry {
            id: OpId::UniqueIdGet,
            path: "poststation/unique_id/get",
            kind: OpKind::Endpoint(Discipline::Immediate),
        },
    );
    v.push(
        CatalogEntry {
            id: OpId::PicobootReset,
            path: "picoboot/reset",
            kind: OpKind::Endpoint(Discipline::Immediate),
        },
    );
    v.push(
        CatalogEntry {
            id: OpId::Sleep,
            path: "nebula/sleep",
            kind: OpKind::Endpoint(Discipline::Deferred { pool: SLEEP_POOL }),
        },
    );
    v.push(
        CatalogEntry {
            id: OpId::LedSet,
            path: "nebula/led/set",
            kind: OpKind::Endpoint(Discipline::Immediate),
        },
    );
    v.push(
        CatalogEntry {
            id: OpId::InfoGet,
            path: "nebula/info",
            kind: OpKind::Endpoint(Discipline::Immediate),
        },
    );
    v.push(CatalogEntry { id: OpId::JobIn, path: "/nebula/job", kind: OpKind::TopicIn });
    v.push(CatalogEntry { id: OpId::StopIn, path: "/nebula/stop", kind: OpKind::TopicIn });
    v.push(
        CatalogEntry { id: OpId::AsicTempOut, path: "/nebula/asic_temp", kind: OpKind::TopicOut },
    );
    v.push(CatalogEntry { id: OpId::ShareOut, path: "/nebula/share", kind: OpKind::TopicOut });
    proof {
        assert(v@ =~= spec_catalog());
    }
    v
}

/// Which operation a path denotes, if any.
pub open spec fn spec_resolve(p: Seq<char>) -> Option<OpId> {
    if p == "poststation/unique_id/get"@ {
        Some(OpId::UniqueIdGet)
    } else if p == "picoboot/reset"@ {
        Some(OpId::PicobootReset)
    } else if p == "nebula/sleep"@ {
        Some(OpId::Sleep)
    } else if p == "nebula/led/set"@ {
        Some(OpId::LedSet)
    } else if p == "nebula/info"@ {
        Some(OpId::InfoGet)
    } else if p == "/nebula/job"@ {
        Some(OpId::JobIn)
    } else if p == "/nebula/stop"@ {
        Some(OpId::StopIn)
    } else if p == "/nebula/asic_temp"@ {
        Some(OpId::AsicTempOut)
    } else if p == "/nebula/share"@ {
        Some(OpId::ShareOut)
    } else {
        None
    }
}

/// Looks a path up in the registry.
pub fn resolve(path: &str) -> (r: Option<OpId>)
    ensures
        r == spec_resolve(path@),
{
    if str_eq(path, "poststation/unique_id/get") {
        Some(OpId::UniqueIdGet)
    } else if str_eq(path, "picoboot/reset") {
        Some(OpId::PicobootReset)
    } else if str_eq(path, "nebula/sleep") {
        Some(OpId::Sleep)
    } else if str_eq(path, "nebula/led/set") {
        Some(OpId::LedSet)
    } else if str_eq(path, "nebula/info") {
        Some(OpId::InfoGet)
    } else if str_eq(path, "/nebula/job") {
        Some(OpId::JobIn)
    } else if str_eq(path, "/nebula/stop") {
        Some(OpId::StopIn)
    } else if str_eq(path, "/nebula/asic_temp") {
        Some(OpId::AsicTempOut)
    } else if str_eq(path, "/nebula/share") {
        Some(OpId::ShareOut)
    } else {
        None
    }
}

/// The length of each path, and a distinguishing first character where two
/// paths share a length. Enough to tell any two registry paths apart.
pub proof fn lemma_path_facts()
    ensures
        "poststation/unique_id/get"@.len() == 25,
        "picoboot/reset"@.len() == 14,
        "nebula/sleep"@.len() == 12,
        "nebula/led/set"@.len() == 14,
        "nebula/info"@.len() == 11,
        "/nebula/job"@.len() == 11,
        "/nebula/stop"@.len() == 12,
        "/nebula/asic_temp"@.len() == 17,
        "/nebula/share"@.len() == 13,
        "picoboot/reset"@[0] == 'p',
        "nebula/led/set"@[0] == 'n',
        "nebula/sleep"@[0] == 'n',
        "nebula/info"@[0] == 'n',
        "/nebula/stop"@[0] == '/',
        "/nebula/job"@[0] == '/',
{
    reveal_strlit("poststation/unique_id/get");
    reveal_strlit("picoboot/reset");
    reveal_strlit("nebula/sleep");
    reveal_strlit("nebula/led/set");
    reveal_strlit("nebula/info");
    reveal_strlit("/nebula/job");
    reveal_strlit("/nebula/stop");
    reveal_strlit("/nebula/asic_temp");
    reveal_strlit("/nebula/share");
}

/// Law: the registry holds no duplicate path. Every operation of the wire
/// contract is addressed by a path of its own.
pub proof fn lemma_catalog_paths_unique()
    ensures
        forall|i: int, j: int|
            0 <= i < j < spec_catalog().len() ==> spec_catalog()[i].path@
                != spec_catalog()[j].path@,
{
    lemma_path_facts();
    assert forall|i: int, j: int| 0 <= i < j < spec_catalog().len() implies spec_catalog()[i].path@
        != spec_catalog()[j].path@ by {
        let pi = spec_catalog()[i].path@;
        let pj = spec_catalog()[j].path@;
        if pi == pj {
            assert(pi.len() == pj.len());
            assert(pi[0] == pj[0]);
            assert(false);
        }
    }
}

/// Law: every row of the registry resolves to its own operation; together
/// with `lemma_catalog_paths_unique`, path lookup is exact.
pub proof fn lemma_resolve_registered()
    ensures
        forall|i: int|
            0 <= i < spec_catalog().len() ==> spec_resolve(#[trigger] spec_catalog()[i].path@)
                == Some(spec_catalog()[i].id),
{
    lemma_catalog_paths_unique();
    assert forall|i: int| 0 <= i < spec_catalog().len() implies spec_resolve(
        #[trigger] spec_catalog()[i].path@,
    ) == Some(spec_catalog()[i].id) by {
        assert(forall|j: int, k: int|
            0 <= j < spec_catalog().len() && 0 <= k < spec_catalog().len() && j != k
                ==> spec_catalog()[j].path@ != spec_catalog()[k].path@);
    }
}

} // verus!
