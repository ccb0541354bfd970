use vstd::prelude::*;
use vstd::string::StringExecFns;

verus! {

/// One delete-marker entry of a version listing, as the storage service
/// reports it: each attribute may be absent.
pub struct DeleteMarker {
    pub key: Option<String>,
    pub version_id: Option<String>,
    pub is_latest: Option<bool>,
}

/// A delete marker that is to be removed: the object key and the version of
/// the marker itself.
pub struct ActionableMarker {
    pub key: String,
    pub version_id: String,
}

/// The key and version of a marker, as character sequences.
pub type MarkerId = (Seq<char>, Seq<char>);

/// A record is removed exactly when it is the latest version of its key and
/// names both a key and a version.
pub open spec fn is_actionable(r: DeleteMarker) -> bool {
    &&& r.is_latest == Some(true)
    &&& r.key is Some
    &&& r.version_id is Some
}

/// The key and version that an actionable record names.
pub open spec fn marker_id(r: DeleteMarker) -> MarkerId {
    (r.key->Some_0@, r.version_id->Some_0@)
}

/// The markers to remove for a list of records, in the order of the list.
pub open spec fn resolved(rs: Seq<DeleteMarker>) -> Seq<MarkerId>
    decreases rs.len(),
{
    if rs.len() == 0 {
        Seq::empty()
    } else {
        let head = resolved(rs.drop_last());
        if is_actionable(rs.last()) {
            head.push(marker_id(rs.last()))
        } else {
            head
        }
    }
}

/// The markers to remove for a listing whose delete-marker field may be absent.
pub open spec fn resolved_listing(listing: Option<Seq<DeleteMarker>>) -> Seq<MarkerId> {
    match listing {
        Some(rs) => resolved(rs),
        None => Seq::empty(),
    }
}

/// The key and version of each of a list of markers.
pub open spec fn ids_of(ms: Seq<ActionableMarker>) -> Seq<MarkerId> {
    ms.map_values(|m: ActionableMarker| (m.key@, m.version_id@))
}

pub(crate) fn copy_string(s: &String) -> (r: String)
    ensures
        r@ == s@,
{
    String::from_str(s.as_str())
}

/// Keeps the records of a listing that are the latest version of their key
/// and name both a key and a version, in the order of the listing. An absent
/// delete-marker field yields no marker.
pub fn resolve_markers(listing: &Option<Vec<DeleteMarker>>) -> (r: Vec<ActionableMarker>)
    ensures
        ids_of(r@) == resolved_listing(
            match listing {
                Some(v) => Some(v@),
                None => None,
            },
        ),
{
    let mut out: Vec<ActionableMarker> = Vec::new();
    match listing {
        None => {
            proof {
                assert(ids_of(out@) =~= Seq::<MarkerId>::empty());
            }
        },
        Some(records) => {
            let mut i: usize = 0;
            proof {
                assert(records@.subrange(0, 0) =~= Seq::<DeleteMarker>::empty());
                assert(ids_of(out@) =~= Seq::<MarkerId>::empty());
            }
            while i < records.len()
                invariant
                    i <= records@.len(),
                    ids_of(out@) == resolved(records@.subrange(0, i as int)),
                decreases records@.len() - i,
            {
                let rec = &records[i];
                proof {
                    let pre = records@.subrange(0, i as int + 1);
                    assert(pre.drop_last() =~= records@.subrange(0, i as int));
                    assert(pre.last() == records@[i as int]);
                }
                if let Some(true) = rec.is_latest {
                    match (&rec.key, &rec.version_id) {
                        (Some(k), Some(v)) => {
                            let m = ActionableMarker { key: copy_string(k), version_id: copy_string(v) };
                            let ghost before = out@;
                            out.push(m);
                            proof {
                                assert(ids_of(out@) =~= ids_of(before).push((m.key@, m.version_id@)));
                            }
                        },
                        _ => {},
                    }
                }
                i = i + 1;
            }
            proof {
                assert(records@.subrange(0, records@.len() as int) =~= records@);
            }
        },
    }
    out
}

} // verus!
