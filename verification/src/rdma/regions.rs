//! Every region a client has registered, so that closing the client can revoke them
//! all.

use vstd::prelude::*;

use crate::rdma::error::RdmaError;
use crate::rdma::protocol::{as_redis_error, cancelled};
#[allow(unused_imports)]
use crate::rdma::protocol::{cancelled_error, request_error};
use crate::resp::RequestError;
#[allow(unused_imports)]
use crate::resp::RequestErrorView;

verus! {

/// How far a client has got with closing.
#[derive(Debug, Clone, Copy, PartialEq, Eq, Structural)]
pub enum CloseState {
    /// Nothing has closed it.
    Open,
    /// A close has started and is revoking regions.
    Closing,
    /// A close has tried every region, whether or not each revoke succeeded.
    Closed,
}

/// Every region a client has registered so that closing the client can revoke
/// them all. `R` revokes one.
///
/// Revoking a region is what cancels a transfer: the server can no longer reach
/// the memory and a transfer waiting on the region returns at once. Closing also
/// refuses any registration or transfer that comes after it, so nothing can
/// start against a client that has been closed.
#[derive(Debug)]
pub struct Regions<R> {
    /// A revoker for every region registered and not yet revoked.
    revokers: Vec<R>,
    state: CloseState,
}

/// The mathematical form of [`Regions`].
pub struct RegionsView<R> {
    pub revokers: Seq<R>,
    pub state: CloseState,
}

impl<R> View for Regions<R> {
    type V = RegionsView<R>;

    closed spec fn view(&self) -> RegionsView<R> {
        RegionsView { revokers: self.revokers@, state: self.state }
    }
}

impl<R> RegionsView<R> {
    /// Whether a close has been called.
    pub open spec fn closed(self) -> bool {
        self.state != CloseState::Open
    }
}

/// Why a closed client registers nothing.
pub open spec fn closed_error() -> RequestErrorView {
    cancelled_error("the client is closed, so it cannot register memory"@)
}

/// The items of a sequence whose mark is set, in order.
pub open spec fn marked<R>(items: Seq<R>, marks: Seq<bool>) -> Seq<R>
    decreases items.len(),
{
    if items.len() == 0 {
        Seq::empty()
    } else {
        let earlier = marked(items.drop_last(), marks.drop_last());
        if marks.last() {
            earlier.push(items.last())
        } else {
            earlier
        }
    }
}

/// Whether `kept` is what is left of `revokers` once those are dropped whose region
/// `is_released` says is gone.
pub open spec fn unreleased<R, F: Fn(&R) -> bool>(
    revokers: Seq<R>,
    is_released: F,
    kept: Seq<R>,
) -> bool {
    exists|live: Seq<bool>|
        {
            &&& live.len() == revokers.len()
            &&& forall|i: int|
                0 <= i < revokers.len() ==> is_released.ensures(
                    (&revokers[i],),
                    !#[trigger] live[i],
                )
            &&& kept == #[trigger] marked(revokers, live)
        }
}

/// What registering comes to, given what making the region came to.
pub open spec fn recorded<B, R, F: Fn(&R) -> bool>(
    before: RegionsView<R>,
    made: Result<(B, R), RdmaError>,
    is_released: F,
    buffer: Result<B, RequestError>,
    after: RegionsView<R>,
) -> bool {
    match made {
        Err(error) => {
            &&& buffer is Err
            &&& buffer->Err_0@ == request_error(error@)
            &&& after == before
        },
        Ok((region, revoker)) => {
            &&& buffer == Ok::<B, RequestError>(region)
            &&& after.state == before.state
            &&& after.revokers.len() > 0
            &&& after.revokers.last() == revoker
            &&& unreleased(before.revokers, is_released, after.revokers.drop_last())
        },
    }
}

/// Which of these revokes failed.
pub open spec fn failures(revoked: Seq<Result<(), RdmaError>>) -> Seq<bool> {
    revoked.map_values(|outcome: Result<(), RdmaError>| outcome is Err)
}

/// Whether `revoked` is a possible outcome of revoking each of these once.
pub open spec fn all_tried<R, F: Fn(&R) -> Result<(), RdmaError>>(
    revokers: Seq<R>,
    revoke: F,
    revoked: Seq<Result<(), RdmaError>>,
) -> bool {
    &&& revoked.len() == revokers.len()
    &&& forall|i: int|
        0 <= i < revokers.len() ==> revoke.ensures((&revokers[i],), #[trigger] revoked[i])
}

/// The first failure there is, as a request error.
pub open spec fn first_failure(revoked: Seq<Result<(), RdmaError>>) -> Option<RequestErrorView>
    decreases revoked.len(),
{
    if revoked.len() == 0 {
        None
    } else if first_failure(revoked.drop_last()) is Some {
        first_failure(revoked.drop_last())
    } else {
        match revoked.last() {
            Ok(_) => None,
            Err(error) => Some(request_error(error@)),
        }
    }
}

/// What closing comes to, given what revoking each region came to: those that failed
/// are left, in order, and the first failure is reported.
pub open spec fn closed_with<R>(
    before: RegionsView<R>,
    revoked: Seq<Result<(), RdmaError>>,
    closed: Result<(), RequestError>,
    after: RegionsView<R>,
) -> bool {
    &&& after == (RegionsView {
        revokers: marked(before.revokers, failures(revoked)),
        state: CloseState::Closed,
    })
    &&& match closed {
        Ok(_) => first_failure(revoked) is None,
        Err(error) => first_failure(revoked) == Some(error@),
    }
}

/// What closing comes to: every region was tried.
pub open spec fn closes<R, F: Fn(&R) -> Result<(), RdmaError>>(
    before: RegionsView<R>,
    revoke: F,
    closed: Result<(), RequestError>,
    after: RegionsView<R>,
) -> bool {
    exists|revoked: Seq<Result<(), RdmaError>>| #[trigger]
        all_tried(before.revokers, revoke, revoked) && closed_with(before, revoked, closed, after)
}

impl<R> Default for Regions<R> {
    fn default() -> (regions: Self)
        ensures
            regions@ == (RegionsView { revokers: Seq::<R>::empty(), state: CloseState::Open }),
    {
        Regions { revokers: Vec::new(), state: CloseState::Open }
    }
}

impl<R> Regions<R> {
    /// Run `register` and record the region it returns. Regions that `is_released` says
    /// are gone drop off the list. A closed client refuses, without running `register`.
    pub fn register<B, M: FnOnce() -> Result<(B, R), RdmaError>, F: Fn(&R) -> bool>(
        &mut self,
        register: M,
        is_released: F,
    ) -> (buffer: Result<B, RequestError>)
        requires
            !old(self)@.closed() ==> register.requires(()),
            forall|revoker: &R| is_released.requires((revoker,)),
        ensures
            if old(self)@.closed() {
                &&& buffer is Err
                &&& buffer->Err_0@ == closed_error()
                &&& final(self)@ == old(self)@
            } else {
                exists|made: Result<(B, R), RdmaError>| #[trigger]
                    register.ensures((), made) && recorded(
                        old(self)@,
                        made,
                        is_released,
                        buffer,
                        final(self)@,
                    )
            },
    {
        if self.is_closed() {
            return Err(
                cancelled("the client is closed, so it cannot register memory".to_string()),
            );
        }
        let made = register();
        let ghost reported = made;
        assert(register.ensures((), reported));
        match made {
            Err(error) => Err(as_redis_error(error)),
            Ok((region, revoker)) => {
                self.drop_released(is_released);
                let ghost kept = self.revokers@;
                self.revokers.push(revoker);
                assert(self.revokers@.drop_last() =~= kept);
                Ok(region)
            },
        }
    }

    fn drop_released<F: Fn(&R) -> bool>(&mut self, is_released: F)
        requires
            forall|revoker: &R| is_released.requires((revoker,)),
        ensures
            final(self)@.state == old(self)@.state,
            unreleased(old(self)@.revokers, is_released, final(self)@.revokers),
    {
        let ghost before = self.revokers@;
        let ghost mut live: Seq<bool> = Seq::empty();
        let mut at: usize = 0;
        let ghost mut seen: int = 0;
        while at < self.revokers.len()
            invariant
                forall|revoker: &R| is_released.requires((revoker,)),
                self.state == old(self).state,
                0 <= seen <= before.len(),
                live.len() == seen,
                at <= self.revokers@.len(),
                self.revokers@ == marked(before.take(seen), live) + before.skip(seen),
                at == marked(before.take(seen), live).len(),
                forall|i: int|
                    0 <= i < seen ==> is_released.ensures((&before[i],), !#[trigger] live[i]),
            decreases before.len() - seen,
        {
            let released = is_released(&self.revokers[at]);
            assert(self.revokers@[at as int] == before[seen]);
            let ghost earlier = marked(before.take(seen), live);
            let ghost next = live.push(!released);
            assert(before.take(seen + 1).drop_last() =~= before.take(seen));
            assert(next.drop_last() =~= live);
            if released {
                self.revokers.remove(at);
                assert(self.revokers@ =~= earlier + before.skip(seen + 1));
            } else {
                at = at + 1;
                assert(self.revokers@ =~= earlier.push(before[seen]) + before.skip(seen + 1));
            }
            proof {
                live = next;
                seen = seen + 1;
            }
        }
        assert(before.take(seen) =~= before);
        assert(self.revokers@ =~= marked(before, live));
    }

    /// Revoke every region with `revoke` and refuse whatever comes after.
    ///
    /// A region that failed to close stays registered, and a transfer using it
    /// keeps waiting for its reply; it also stays on the list, so closing again
    /// tries it again. Otherwise closing again does nothing.
    pub fn close<F: Fn(&R) -> Result<(), RdmaError>>(&mut self, revoke: F) -> (closed: Result<
        (),
        RequestError,
    >)
        requires
            forall|revoker: &R| revoke.requires((revoker,)),
        ensures
            closes(old(self)@, revoke, closed, final(self)@),
    {
        self.begin_close();
        self.revoke_all(revoke)
    }

    /// Refuse whatever comes from now on. A close that has finished stays finished.
    pub fn begin_close(&mut self)
        ensures
            final(self)@.revokers == old(self)@.revokers,
            final(self)@.state == if old(self)@.state == CloseState::Open {
                CloseState::Closing
            } else {
                old(self)@.state
            },
    {
        if self.state == CloseState::Open {
            self.state = CloseState::Closing;
        }
    }

    /// Try to revoke every region, keeping those that fail.
    pub fn revoke_all<F: Fn(&R) -> Result<(), RdmaError>>(&mut self, revoke: F) -> (closed: Result<
        (),
        RequestError,
    >)
        requires
            forall|revoker: &R| revoke.requires((revoker,)),
        ensures
            closes(old(self)@, revoke, closed, final(self)@),
    {
        let ghost before = self.revokers@;
        let ghost mut revoked: Seq<Result<(), RdmaError>> = Seq::empty();
        let mut failure: Option<RequestError> = None;
        let mut at: usize = 0;
        let ghost mut seen: int = 0;
        while at < self.revokers.len()
            invariant
                forall|revoker: &R| revoke.requires((revoker,)),
                0 <= seen <= before.len(),
                revoked.len() == seen,
                at <= self.revokers@.len(),
                self.revokers@ == marked(before.take(seen), failures(revoked)) + before.skip(seen),
                at == marked(before.take(seen), failures(revoked)).len(),
                match failure {
                    Some(failure) => first_failure(revoked) == Some(failure@),
                    None => first_failure(revoked) is None,
                },
                forall|i: int|
                    0 <= i < seen ==> revoke.ensures((&before[i],), #[trigger] revoked[i]),
            decreases before.len() - seen,
        {
            let outcome = revoke(&self.revokers[at]);
            assert(self.revokers@[at as int] == before[seen]);
            let ghost earlier = marked(before.take(seen), failures(revoked));
            let ghost next = revoked.push(outcome);
            assert(before.take(seen + 1).drop_last() =~= before.take(seen));
            assert(next.drop_last() =~= revoked);
            assert(failures(next).drop_last() =~= failures(revoked));
            match outcome {
                Ok(_) => {
                    self.revokers.remove(at);
                    assert(self.revokers@ =~= earlier + before.skip(seen + 1));
                },
                Err(error) => {
                    if failure.is_none() {
                        failure = Some(as_redis_error(error));
                    }
                    at = at + 1;
                    assert(self.revokers@ =~= earlier.push(before[seen]) + before.skip(seen + 1));
                },
            }
            proof {
                revoked = next;
                seen = seen + 1;
            }
        }
        assert(before.take(seen) =~= before);
        assert(self.revokers@ =~= marked(before, failures(revoked)));
        self.state = CloseState::Closed;
        assert(all_tried(old(self)@.revokers, revoke, revoked));
        let closed = match failure {
            Some(failure) => Err(failure),
            None => Ok(()),
        };
        assert(closed_with(old(self)@, revoked, closed, self@));
        closed
    }

    /// Whether [`Self::close`] has been called. True from the start of a close,
    /// before its regions are revoked.
    pub fn is_closed(&self) -> (closed: bool)
        ensures
            closed == self@.closed(),
    {
        self.state != CloseState::Open
    }

    /// Whether a close has tried to revoke every region.
    pub fn close_finished(&self) -> (finished: bool)
        ensures
            finished == (self@.state == CloseState::Closed),
    {
        self.state == CloseState::Closed
    }

    /// How far closing has got.
    pub fn state(&self) -> (state: CloseState)
        ensures
            state == self@.state,
    {
        self.state
    }

    /// How many regions are on the list.
    pub fn count(&self) -> (listed: usize)
        ensures
            listed == self@.revokers.len(),
    {
        self.revokers.len()
    }
}

proof fn lemma_marked_none<R>(items: Seq<R>, marks: Seq<bool>)
    requires
        marks.len() == items.len(),
        forall|i: int| 0 <= i < marks.len() ==> !#[trigger] marks[i],
    ensures
        marked(items, marks).len() == 0,
    decreases items.len(),
{
    if items.len() > 0 {
        assert(!marks[marks.len() - 1]);
        assert forall|i: int| 0 <= i < marks.drop_last().len() implies !#[trigger] marks.drop_last()[i] by {
            assert(!marks[i]);
        }
        lemma_marked_none(items.drop_last(), marks.drop_last());
    }
}

proof fn lemma_marked_all<R>(items: Seq<R>, marks: Seq<bool>)
    requires
        marks.len() == items.len(),
        forall|i: int| 0 <= i < marks.len() ==> #[trigger] marks[i],
    ensures
        marked(items, marks) == items,
    decreases items.len(),
{
    if items.len() > 0 {
        assert(marks[marks.len() - 1]);
        assert forall|i: int| 0 <= i < marks.drop_last().len() implies #[trigger] marks.drop_last()[i] by {
            assert(marks[i]);
        }
        lemma_marked_all(items.drop_last(), marks.drop_last());
        assert(items.drop_last().push(items.last()) =~= items);
    } else {
        assert(marked(items, marks) =~= items);
    }
}

proof fn lemma_no_failure(revoked: Seq<Result<(), RdmaError>>)
    ensures
        first_failure(revoked) is None <==> forall|i: int|
            0 <= i < revoked.len() ==> (#[trigger] revoked[i]) is Ok,
    decreases revoked.len(),
{
    if revoked.len() > 0 {
        let earlier = revoked.drop_last();
        lemma_no_failure(earlier);
        if first_failure(revoked) is None {
            assert forall|i: int| 0 <= i < revoked.len() implies (#[trigger] revoked[i]) is Ok by {
                if i < earlier.len() {
                    assert(earlier[i] is Ok);
                }
            }
        } else if first_failure(earlier) is Some {
            let at = choose|i: int| 0 <= i < earlier.len() && !((#[trigger] earlier[i]) is Ok);
            assert(!(revoked[at] is Ok));
        } else {
            assert(!(revoked[revoked.len() - 1] is Ok));
        }
    }
}

/// A close that succeeds leaves nothing to revoke, and one that fails leaves something:
/// a region stays on the list just when revoking it failed.
pub proof fn a_close_succeeds_when_nothing_is_left<R, F: Fn(&R) -> Result<(), RdmaError>>(
    before: RegionsView<R>,
    revoke: F,
    closed: Result<(), RequestError>,
    after: RegionsView<R>,
)
    requires
        closes(before, revoke, closed, after),
    ensures
        closed is Ok <==> after.revokers.len() == 0,
        after.revokers.len() <= before.revokers.len(),
        after.closed(),
{
    let revoked = choose|revoked: Seq<Result<(), RdmaError>>|
        #[trigger] all_tried(before.revokers, revoke, revoked) && closed_with(
            before,
            revoked,
            closed,
            after,
        );
    lemma_no_failure(revoked);
    lemma_marked_len(before.revokers, failures(revoked));
    if closed is Ok {
        assert forall|i: int| 0 <= i < failures(revoked).len() implies !#[trigger] failures(
            revoked,
        )[i] by {
            assert(revoked[i] is Ok);
        }
        lemma_marked_none(before.revokers, failures(revoked));
    } else {
        let at = choose|i: int| 0 <= i < revoked.len() && !((#[trigger] revoked[i]) is Ok);
        assert(failures(revoked)[at]);
        lemma_marked_some(before.revokers, failures(revoked), at);
    }
}

proof fn lemma_marked_len<R>(items: Seq<R>, marks: Seq<bool>)
    ensures
        marked(items, marks).len() <= items.len(),
    decreases items.len(),
{
    if items.len() > 0 {
        lemma_marked_len(items.drop_last(), marks.drop_last());
    }
}

proof fn lemma_marked_some<R>(items: Seq<R>, marks: Seq<bool>, at: int)
    requires
        marks.len() == items.len(),
        0 <= at < marks.len(),
        marks[at],
    ensures
        marked(items, marks).contains(items[at]),
    decreases items.len(),
{
    let earlier = marked(items.drop_last(), marks.drop_last());
    if at == items.len() - 1 {
        assert(marked(items, marks).last() == items[at]);
    } else {
        lemma_marked_some(items.drop_last(), marks.drop_last(), at);
        let found = choose|i: int| 0 <= i < earlier.len() && earlier[i] == items[at];
        assert(marked(items, marks)[found] == items[at]);
    }
}

/// A region whose revoke fails stays on the list, so closing again tries it again.
pub proof fn a_failed_region_stays<R>(
    revokers: Seq<R>,
    revoked: Seq<Result<(), RdmaError>>,
    at: int,
)
    requires
        revoked.len() == revokers.len(),
        0 <= at < revokers.len(),
        revoked[at] is Err,
    ensures
        marked(revokers, failures(revoked)).contains(revokers[at]),
{
    assert(failures(revoked)[at]);
    lemma_marked_some(revokers, failures(revoked), at);
}

/// Where every revoke fails, the list stays as it was.
pub proof fn a_close_that_fails_throughout_keeps_every_region<R>(
    revokers: Seq<R>,
    revoked: Seq<Result<(), RdmaError>>,
)
    requires
        revoked.len() == revokers.len(),
        forall|i: int| 0 <= i < revoked.len() ==> (#[trigger] revoked[i]) is Err,
    ensures
        marked(revokers, failures(revoked)) == revokers,
{
    assert forall|i: int| 0 <= i < failures(revoked).len() implies #[trigger] failures(
        revoked,
    )[i] by {
        assert(revoked[i] is Err);
    }
    lemma_marked_all(revokers, failures(revoked));
}

/// A close that succeeds has revoked every region on the list.
pub proof fn a_close_that_succeeds_revoked_every_region<R, F: Fn(&R) -> Result<(), RdmaError>>(
    before: RegionsView<R>,
    revoke: F,
    closed: Result<(), RequestError>,
    after: RegionsView<R>,
)
    requires
        closes(before, revoke, closed, after),
        closed is Ok,
    ensures
        forall|i: int|
            0 <= i < before.revokers.len() ==> revoke.ensures(
                (&#[trigger] before.revokers[i],),
                Ok(()),
            ),
{
    let revoked = choose|revoked: Seq<Result<(), RdmaError>>|
        #[trigger] all_tried(before.revokers, revoke, revoked) && closed_with(
            before,
            revoked,
            closed,
            after,
        );
    lemma_no_failure(revoked);
    assert forall|i: int| 0 <= i < before.revokers.len() implies revoke.ensures(
        (&#[trigger] before.revokers[i],),
        Ok(()),
    ) by {
        assert(revoke.ensures((&before.revokers[i],), revoked[i]));
        assert(revoked[i] is Ok);
        assert(revoked[i]->Ok_0 == ());
    }
}

/// A region that was registered is on the list, so the close that follows revokes it or
/// fails.
pub proof fn a_registered_region_is_revoked_by_a_close<
    B,
    R,
    L: Fn(&R) -> bool,
    F: Fn(&R) -> Result<(), RdmaError>,
>(
    before: RegionsView<R>,
    region: B,
    revoker: R,
    is_released: L,
    buffer: Result<B, RequestError>,
    registered: RegionsView<R>,
    revoke: F,
    closed: Result<(), RequestError>,
    after: RegionsView<R>,
)
    requires
        recorded(before, Ok((region, revoker)), is_released, buffer, registered),
        closes(registered, revoke, closed, after),
        closed is Ok,
    ensures
        revoke.ensures((&revoker,), Ok(())),
{
    a_close_that_succeeds_revoked_every_region(registered, revoke, closed, after);
    assert(registered.revokers[registered.revokers.len() - 1] == revoker);
}

/// Closing again after a close that succeeded does nothing and succeeds.
pub proof fn closing_again_is_a_no_op<R, F: Fn(&R) -> Result<(), RdmaError>>(
    before: RegionsView<R>,
    revoke: F,
    closed: Result<(), RequestError>,
    after: RegionsView<R>,
)
    requires
        before.revokers.len() == 0,
        before.state == CloseState::Closed,
        closes(before, revoke, closed, after),
    ensures
        closed is Ok,
        after == before,
{
    a_close_succeeds_when_nothing_is_left(before, revoke, closed, after);
    assert(after.revokers =~= before.revokers);
}

/// Picking out marked items goes item by item: what is picked of two lists together is
/// what is picked of the first and then what is picked of the second, and of one item it
/// is the item, or nothing.
pub proof fn marked_goes_item_by_item<R>(
    items: Seq<R>,
    marks: Seq<bool>,
    more: Seq<R>,
    more_marks: Seq<bool>,
    item: R,
)
    requires
        marks.len() == items.len(),
        more_marks.len() == more.len(),
    ensures
        marked(items + more, marks + more_marks) == marked(items, marks) + marked(more, more_marks),
        marked(seq![item], seq![true]) == seq![item],
        marked(seq![item], seq![false]).len() == 0,
    decreases more.len(),
{
    let one = seq![item];
    assert(one.drop_last() =~= Seq::empty());
    assert(marked(one.drop_last(), seq![true].drop_last()).len() == 0);
    assert(marked(one.drop_last(), seq![false].drop_last()).len() == 0);
    assert(marked(one, seq![true]) =~= one);
    if more.len() == 0 {
        assert(items + more =~= items);
        assert(marks + more_marks =~= marks);
        assert(marked(more, more_marks) =~= Seq::empty());
        assert(marked(items, marks) + marked(more, more_marks) =~= marked(items, marks));
    } else {
        marked_goes_item_by_item(items, marks, more.drop_last(), more_marks.drop_last(), item);
        assert((items + more).drop_last() =~= items + more.drop_last());
        assert((marks + more_marks).drop_last() =~= marks + more_marks.drop_last());
        assert(marked(items + more, marks + more_marks) =~= marked(items, marks) + marked(
            more,
            more_marks,
        ));
    }
}

/// The failure that a close reports is the first: what came before it succeeded, and
/// what comes after it does not matter.
pub proof fn the_first_failure_is_reported(
    succeeded: Seq<Result<(), RdmaError>>,
    error: RdmaError,
    rest: Seq<Result<(), RdmaError>>,
)
    requires
        forall|i: int| 0 <= i < succeeded.len() ==> (#[trigger] succeeded[i]) is Ok,
    ensures
        first_failure(succeeded) is None,
        first_failure(succeeded.push(Err(error)) + rest) == Some(request_error(error@)),
    decreases rest.len(),
{
    lemma_no_failure(succeeded);
    let prefix = succeeded.push(Err::<(), RdmaError>(error));
    if rest.len() == 0 {
        assert(prefix + rest =~= prefix);
        assert(prefix.drop_last() =~= succeeded);
    } else {
        the_first_failure_is_reported(succeeded, error, rest.drop_last());
        assert((prefix + rest).drop_last() =~= prefix + rest.drop_last());
    }
}

/// Closing leaves the client closed, with the regions whose revoke failed and no others.
pub proof fn a_close_keeps_what_failed_alone<R>(
    before: RegionsView<R>,
    revoked: Seq<Result<(), RdmaError>>,
    closed: Result<(), RequestError>,
    after: RegionsView<R>,
)
    requires
        revoked.len() == before.revokers.len(),
        closed_with(before, revoked, closed, after),
    ensures
        after.state == CloseState::Closed,
        closed is Ok <==> forall|i: int|
            0 <= i < revoked.len() ==> (#[trigger] revoked[i]) is Ok,
        forall|i: int|
            0 <= i < revoked.len() && (#[trigger] revoked[i]) is Err ==> after.revokers.contains(
                before.revokers[i],
            ),
        forall|k: int|
            0 <= k < after.revokers.len() ==> exists|i: int|
                0 <= i < revoked.len() && (#[trigger] revoked[i]) is Err && before.revokers[i]
                    == #[trigger] after.revokers[k],
{
    lemma_no_failure(revoked);
    let marks = failures(revoked);
    assert forall|i: int|
        0 <= i < revoked.len() && (#[trigger] revoked[i]) is Err implies after.revokers.contains(
        before.revokers[i],
    ) by {
        a_failed_region_stays(before.revokers, revoked, i);
    }
    assert forall|k: int| 0 <= k < after.revokers.len() implies exists|i: int|
        0 <= i < revoked.len() && (#[trigger] revoked[i]) is Err && before.revokers[i]
            == #[trigger] after.revokers[k] by {
        let i = lemma_marked_comes_from(before.revokers, marks, k);
        assert(revoked[i] is Err);
    }
}

proof fn lemma_marked_comes_from<R>(items: Seq<R>, marks: Seq<bool>, at: int) -> (from: int)
    requires
        marks.len() == items.len(),
        0 <= at < marked(items, marks).len(),
    ensures
        0 <= from < items.len(),
        marks[from],
        items[from] == marked(items, marks)[at],
    decreases items.len(),
{
    let earlier = marked(items.drop_last(), marks.drop_last());
    if at < earlier.len() {
        let from = lemma_marked_comes_from(items.drop_last(), marks.drop_last(), at);
        from
    } else {
        items.len() - 1
    }
}

/// A registration adds its region at the end of the list and hands its buffer out. A
/// region that is certain to be in use stays on the list, and only one that is on it can.
pub proof fn a_registration_adds_its_region<B, R, F: Fn(&R) -> bool>(
    before: RegionsView<R>,
    region: B,
    revoker: R,
    is_released: F,
    buffer: Result<B, RequestError>,
    after: RegionsView<R>,
)
    requires
        recorded(before, Ok((region, revoker)), is_released, buffer, after),
    ensures
        buffer == Ok::<B, RequestError>(region),
        after.state == before.state,
        after.revokers.len() > 0,
        after.revokers[after.revokers.len() - 1] == revoker,
        forall|i: int|
            0 <= i < before.revokers.len() && !is_released.ensures(
                (&#[trigger] before.revokers[i],),
                true,
            ) ==> after.revokers.contains(before.revokers[i]),
        forall|k: int|
            0 <= k < after.revokers.len() - 1 ==> exists|i: int|
                0 <= i < before.revokers.len() && (#[trigger] before.revokers[i])
                    == #[trigger] after.revokers[k] && is_released.ensures(
                    (&before.revokers[i],),
                    false,
                ),
{
    let kept = after.revokers.drop_last();
    let live = choose|live: Seq<bool>|
        {
            &&& live.len() == before.revokers.len()
            &&& forall|i: int|
                0 <= i < before.revokers.len() ==> is_released.ensures(
                    (&before.revokers[i],),
                    !#[trigger] live[i],
                )
            &&& kept == #[trigger] marked(before.revokers, live)
        };
    assert forall|i: int|
        0 <= i < before.revokers.len() && !is_released.ensures(
            (&#[trigger] before.revokers[i],),
            true,
        ) implies after.revokers.contains(before.revokers[i]) by {
        assert(is_released.ensures((&before.revokers[i],), !live[i]));
        lemma_marked_some(before.revokers, live, i);
        let found = choose|k: int| 0 <= k < kept.len() && kept[k] == before.revokers[i];
        assert(after.revokers[found] == before.revokers[i]);
    }
    assert forall|k: int| 0 <= k < after.revokers.len() - 1 implies exists|i: int|
        0 <= i < before.revokers.len() && (#[trigger] before.revokers[i])
            == #[trigger] after.revokers[k] && is_released.ensures(
            (&before.revokers[i],),
            false,
        ) by {
        assert(kept[k] == after.revokers[k]);
        let i = lemma_marked_comes_from(before.revokers, live, k);
        assert(is_released.ensures((&before.revokers[i],), !live[i]));
        assert(before.revokers[i] == after.revokers[k]);
    }
}

/// A registration that failed leaves the list as it was.
pub proof fn a_failed_registration_changes_nothing<B, R, F: Fn(&R) -> bool>(
    before: RegionsView<R>,
    error: RdmaError,
    is_released: F,
    buffer: Result<B, RequestError>,
    after: RegionsView<R>,
)
    requires
        recorded(before, Err(error), is_released, buffer, after),
    ensures
        buffer is Err,
        buffer->Err_0@ == request_error(error@),
        after == before,
{
}

/// A close reports the first failure there was, and keeps the regions whose revoke failed
/// in the order they were in.
pub proof fn a_close_reports_the_first_failure<R>(
    before: RegionsView<R>,
    revoked: Seq<Result<(), RdmaError>>,
    closed: Result<(), RequestError>,
    after: RegionsView<R>,
    at: int,
)
    requires
        revoked.len() == before.revokers.len(),
        closed_with(before, revoked, closed, after),
        0 <= at < revoked.len(),
        revoked[at] is Err,
        forall|i: int| 0 <= i < at ==> (#[trigger] revoked[i]) is Ok,
    ensures
        closed is Err,
        closed->Err_0@ == request_error(revoked[at]->Err_0@),
        after.revokers == marked(before.revokers, failures(revoked)),
        failures(revoked).len() == revoked.len(),
        forall|i: int|
            0 <= i < revoked.len() ==> (#[trigger] failures(revoked)[i] <==> revoked[i] is Err),
{
    let error = revoked[at]->Err_0;
    the_first_failure_is_reported(revoked.take(at), error, revoked.skip(at + 1));
    assert(revoked.take(at).push(Err(error)) + revoked.skip(at + 1) =~= revoked);
}

/// A registration keeps the order of what stays on the list.
pub proof fn a_registration_keeps_the_order<B, R, F: Fn(&R) -> bool>(
    before: RegionsView<R>,
    region: B,
    revoker: R,
    is_released: F,
    buffer: Result<B, RequestError>,
    after: RegionsView<R>,
)
    requires
        recorded(before, Ok((region, revoker)), is_released, buffer, after),
    ensures
        exists|live: Seq<bool>|
            live.len() == before.revokers.len() && after.revokers == (#[trigger] marked(
                before.revokers,
                live,
            )).push(revoker),
{
    let kept = after.revokers.drop_last();
    let live = choose|live: Seq<bool>|
        {
            &&& live.len() == before.revokers.len()
            &&& forall|i: int|
                0 <= i < before.revokers.len() ==> is_released.ensures(
                    (&before.revokers[i],),
                    !#[trigger] live[i],
                )
            &&& kept == #[trigger] marked(before.revokers, live)
        };
    assert(after.revokers =~= marked(before.revokers, live).push(revoker));
}

/// A client is closed from the start of a close on, and refuses memory with an error that
/// says so.
pub proof fn a_client_is_closed_from_the_start<R>(regions: RegionsView<R>)
    ensures
        regions.closed() <==> regions.state is Closing || regions.state is Closed,
        closed_error() == cancelled_error("the client is closed, so it cannot register memory"@),
{
}

} // verus!
