use vstd::prelude::*;

use crate::types::Deployment;

verus! {

/// The entries whose deployment is on the given server, in their order.
pub open spec fn on_server(server_id: Seq<char>, all: Seq<(String, Deployment)>) -> Seq<
    (String, Deployment),
>
    decreases all.len(),
{
    if all.len() == 0 {
        Seq::empty()
    } else if all.last().1.server_id@ == server_id {
        on_server(server_id, all.drop_last()).push(all.last())
    } else {
        on_server(server_id, all.drop_last())
    }
}

/// The deletion of every deployment on one server, one request at a time.
/// It stops at the first failed delete; what was deleted before stays deleted.
pub struct BulkDelete {
    remaining: Vec<(String, Deployment)>,
    failure: Option<String>,
}

impl BulkDelete {
    /// The entries still to delete, next first.
    pub closed spec fn spec_remaining(&self) -> Seq<(String, Deployment)> {
        self.remaining@
    }

    /// The error of the delete that failed, once one has.
    pub closed spec fn spec_failure(&self) -> Option<Seq<char>> {
        match self.failure {
            Some(e) => Some(e@),
            None => None,
        }
    }

    /// Starts from all deployments, keyed by identifier, keeping those on `server_id`.
    pub fn new(server_id: &str, all: Vec<(String, Deployment)>) -> (r: BulkDelete)
        ensures
            r.spec_remaining() == on_server(server_id@, all@),
            r.spec_failure() is None,
    {
        let ghost all0 = all@;
        let mut rest = all;
        let mut kept: Vec<(String, Deployment)> = Vec::new();
        let mut k: usize = 0;
        let n = rest.len();
        let target = server_id.to_string();
        assert(all0.take(0) =~= Seq::<(String, Deployment)>::empty());
        while rest.len() > 0
            invariant
                n == all0.len(),
                target@ == server_id@,
                k <= n,
                rest@ == all0.skip(k as int),
                kept@ == on_server(server_id@, all0.take(k as int)),
            decreases rest@.len(),
        {
            let item = rest.remove(0);
            assert(item == all0[k as int]);
            assert(all0.take(k + 1).drop_last() =~= all0.take(k as int));
            assert(all0.take(k + 1).last() == all0[k as int]);
            if item.1.server_id.eq(&target) {
                kept.push(item);
            }
            assert(rest@ =~= all0.skip(k + 1));
            k = k + 1;
        }
        assert(all0.take(n as int) =~= all0);
        BulkDelete { remaining: kept, failure: None }
    }

    /// The identifier to delete next; none once everything was deleted or a
    /// delete failed.
    pub open spec fn spec_pending(&self) -> Option<Seq<char>> {
        if self.spec_failure() is None && self.spec_remaining().len() > 0 {
            Some(self.spec_remaining()[0].0@)
        } else {
            None
        }
    }

    /// The identifier to delete next, as `spec_pending` says.
    pub fn next_delete(&self) -> (r: Option<&str>)
        ensures
            r is Some <==> self.spec_pending() is Some,
            r is Some ==> r->0@ == self.spec_pending()->0,
    {
        if self.failure.is_none() && self.remaining.len() > 0 {
            Some(self.remaining[0].0.as_str())
        } else {
            None
        }
    }

    /// Takes the outcome of the delete that `next_delete` named. On success it
    /// hands back the deleted record and moves on; on failure it keeps the error
    /// and deletes nothing more.
    pub fn record(&mut self, reply: Result<String, String>) -> (r: Option<Deployment>)
        requires
            old(self).spec_failure() is None,
            old(self).spec_remaining().len() > 0,
        ensures
            reply is Ok ==> r == Some(old(self).spec_remaining()[0].1)
                && final(self).spec_remaining() == old(self).spec_remaining().drop_first()
                && final(self).spec_failure() is None,
            reply is Err ==> r is None && final(self).spec_remaining()
                == old(self).spec_remaining() && final(self).spec_failure() == Some(
                reply->Err_0@,
            ),
    {
        match reply {
            Ok(_) => {
                let (_, deployment) = self.remaining.remove(0);
                assert(self.remaining@ =~= old(self).spec_remaining().drop_first());
                Some(deployment)
            },
            Err(e) => {
                self.failure = Some(e);
                None
            },
        }
    }

    /// The result of the whole operation: the first delete error, if any.
    pub fn outcome(&self) -> (r: Result<(), String>)
        ensures
            self.spec_failure() is None ==> r is Ok,
            self.spec_failure() is Some ==> r is Err && r->Err_0@ == self.spec_failure()->0,
    {
        match &self.failure {
            Some(e) => Err(e.clone()),
            None => Ok(()),
        }
    }
}

/// A failed delete ends the run: whatever the state before, after the failure
/// no delete is pending and the outcome is that failure; after a success the
/// next pending delete is the following entry on the server.
pub proof fn lemma_failure_stops(before: BulkDelete, after: BulkDelete, reply: Result<String, String>)
    requires
        before.spec_failure() is None,
        before.spec_remaining().len() > 0,
        reply is Err ==> after.spec_remaining() == before.spec_remaining()
            && after.spec_failure() == Some(reply->Err_0@),
        reply is Ok ==> after.spec_remaining() == before.spec_remaining().drop_first()
            && after.spec_failure() is None,
    ensures
        reply is Err ==> after.spec_pending() is None && after.spec_failure() == Some(
            reply->Err_0@,
        ),
        reply is Ok && before.spec_remaining().len() > 1 ==> after.spec_pending() == Some(
            before.spec_remaining()[1].0@,
        ),
        reply is Ok && before.spec_remaining().len() == 1 ==> after.spec_pending() is None,
{
}

/// Every entry kept for deletion is on the server, and every entry on the
/// server is kept.
pub proof fn lemma_on_server_exact(server_id: Seq<char>, all: Seq<(String, Deployment)>)
    ensures
        forall|i: int|
            0 <= i < on_server(server_id, all).len() ==> (#[trigger] on_server(
                server_id,
                all,
            )[i]).1.server_id@ == server_id,
        forall|j: int|
            0 <= j < all.len() && (#[trigger] all[j]).1.server_id@ == server_id ==> on_server(
                server_id,
                all,
            ).contains(all[j]),
    decreases all.len(),
{
    if all.len() > 0 {
        let rest = all.drop_last();
        lemma_on_server_exact(server_id, rest);
        let f = on_server(server_id, all);
        let fr = on_server(server_id, rest);
        assert forall|j: int|
            0 <= j < all.len() && (#[trigger] all[j]).1.server_id@ == server_id implies f.contains(
                all[j],
            ) by {
            if j < all.len() - 1 {
                assert(rest[j] == all[j]);
                let k = choose|k: int| 0 <= k < fr.len() && fr[k] == rest[j];
                assert(f[k] == all[j]);
            } else {
                assert(f[f.len() - 1] == all[j]);
            }
        }
    }
}

} // verus!
