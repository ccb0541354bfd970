use vstd::prelude::*;

use crate::batch::{batch_action, batch_step, report_text, BatchActionView, BatchEventView, BatchView};
use crate::marker::{is_actionable, marker_id, resolved, DeleteMarker, MarkerId};
use crate::session::{
    context_text, session_action, session_start, session_step, ActionView, ErrorKind, EventView,
    SessionView,
};

verus! {

/// The state of a session for `prefix` after its listing returned the records
/// `rs` and `k` delete requests succeeded.
pub open spec fn after_deletes(prefix: Seq<char>, rs: Seq<DeleteMarker>, k: nat) -> SessionView
    decreases k,
{
    if k == 0 {
        session_step(session_start(prefix), EventView::Listed(Ok(Some(rs))))
    } else {
        session_step(after_deletes(prefix, rs, (k - 1) as nat), EventView::Deleted(Ok(())))
    }
}

/// The markers removed for a listing are exactly its records that are the
/// latest version of their key and name both a key and a version, in the
/// order of the listing; every other record is passed over without error.
pub proof fn law_resolved_is_filter(rs: Seq<DeleteMarker>)
    ensures
        resolved(rs) == rs.filter(|r: DeleteMarker| is_actionable(r)).map_values(
            |r: DeleteMarker| marker_id(r),
        ),
    decreases rs.len(),
{
    reveal(Seq::filter);
    let p = |r: DeleteMarker| is_actionable(r);
    let f = |r: DeleteMarker| marker_id(r);
    if rs.len() == 0 {
        assert(rs.filter(p).map_values(f) =~= Seq::<MarkerId>::empty());
    } else {
        law_resolved_is_filter(rs.drop_last());
        let sub = rs.drop_last().filter(p);
        assert(sub.map_values(f) == resolved(rs.drop_last()));
        if p(rs.last()) {
            assert(rs.filter(p) == sub.push(rs.last()));
            assert(sub.push(rs.last()).map_values(f) =~= sub.map_values(f).push(f(rs.last())));
        } else {
            assert(rs.filter(p) == sub);
        }
        assert(resolved(rs) == rs.filter(p).map_values(f));
    }
}

/// After the listing of a prefix returns the records `rs`, the session asks
/// to delete each resolved marker once, in order, one after each successful
/// delete, and then finishes with success.
pub proof fn law_each_marker_deleted_once(prefix: Seq<char>, rs: Seq<DeleteMarker>, k: nat)
    requires
        k <= resolved(rs).len(),
    ensures
        k < resolved(rs).len() ==> session_action(after_deletes(prefix, rs, k))
            == ActionView::DeleteObject(resolved(rs)[k as int]),
        k == resolved(rs).len() ==> session_action(after_deletes(prefix, rs, k))
            == ActionView::Finish(Ok(())),
    decreases k,
{
    if k > 0 {
        law_each_marker_deleted_once(prefix, rs, (k - 1) as nat);
    }
    lemma_after_deletes_state(prefix, rs, k);
}

proof fn lemma_after_deletes_state(prefix: Seq<char>, rs: Seq<DeleteMarker>, k: nat)
    requires
        k <= resolved(rs).len(),
    ensures
        after_deletes(prefix, rs, k).markers == resolved(rs),
        after_deletes(prefix, rs, k).prefix == prefix,
        after_deletes(prefix, rs, k).deleted == k,
        k < resolved(rs).len() ==> after_deletes(prefix, rs, k).phase is Deleting,
        k == resolved(rs).len() ==> after_deletes(prefix, rs, k).phase is Done,
    decreases k,
{
    if k > 0 {
        lemma_after_deletes_state(prefix, rs, (k - 1) as nat);
    }
}

/// A listing without a delete-marker field asks for no delete: the prefix
/// is reported as done.
pub proof fn law_no_marker_field(prefix: Seq<char>)
    ensures
        session_action(session_step(session_start(prefix), EventView::Listed(Ok(None))))
            == ActionView::Finish(Ok(())),
        batch_action(
            batch_step(
                BatchView::Working(session_start(prefix)),
                BatchEventView::Storage(EventView::Listed(Ok(None))),
            ),
        ) == BatchActionView::Print("done: "@ + prefix),
{
}

/// A failed listing for a prefix is reported for that prefix, and the batch
/// then reads the next line and lists the versions under it.
pub proof fn law_list_failure_isolated(prefix: Seq<char>, cause: Seq<char>, next: Seq<char>)
    ensures
        ({
            let b1 = batch_step(
                BatchView::Working(session_start(prefix)),
                BatchEventView::Storage(EventView::Listed(Err(cause))),
            );
            let b2 = batch_step(b1, BatchEventView::Reported);
            let b3 = batch_step(b2, BatchEventView::LineRead(Ok(Some(next))));
            &&& batch_action(b1) == BatchActionView::Print(
                report_text(prefix, Err((ErrorKind::ListVersions, cause))),
            )
            &&& batch_action(b2) == BatchActionView::ReadLine
            &&& batch_action(b3) == BatchActionView::ListVersions(next)
        }),
{
}

/// A failed delete for a prefix ends its unit of work: no further marker of
/// it is deleted, the failure is reported for that prefix, and the batch then
/// reads the next line and lists the versions under it.
pub proof fn law_delete_failure_isolated(
    prefix: Seq<char>,
    rs: Seq<DeleteMarker>,
    k: nat,
    cause: Seq<char>,
    next: Seq<char>,
)
    requires
        k < resolved(rs).len(),
    ensures
        ({
            let b1 = batch_step(
                BatchView::Working(after_deletes(prefix, rs, k)),
                BatchEventView::Storage(EventView::Deleted(Err(cause))),
            );
            let b2 = batch_step(b1, BatchEventView::Reported);
            let b3 = batch_step(b2, BatchEventView::LineRead(Ok(Some(next))));
            &&& batch_action(b1) == BatchActionView::Print(
                report_text(prefix, Err((ErrorKind::DeleteMarker, cause))),
            )
            &&& batch_action(b2) == BatchActionView::ReadLine
            &&& batch_action(b3) == BatchActionView::ListVersions(next)
        }),
{
    lemma_after_deletes_state(prefix, rs, k);
}

/// The report of a failure names the request that failed.
pub proof fn law_failure_report(prefix: Seq<char>, kind: ErrorKind, cause: Seq<char>)
    ensures
        report_text(prefix, Err((kind, cause))) == "cannot process line: "@ + context_text(kind),
{
}

} // verus!
