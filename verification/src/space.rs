//! Shapes of multi-dimensional arrays, and the dataspace resource that
//! holds one inside the runtime.
//!
//! A dataspace is made and read in steps. Each step states the call that is
//! to be made into the runtime, and the next one takes what the runtime
//! answered: `Some` with the value it returned, or `None` where it reported
//! a failure.

use vstd::prelude::*;
use crate::error::{Error, Hid, RuntimeCall};
use crate::handle::{Handle, Ownership, ResourceKind};

verus! {

/// The extent of one axis.
pub type Ix = usize;

/// The product of the extents, as a natural number.
pub open spec fn product(extents: Seq<Ix>) -> nat
    decreases extents.len(),
{
    if extents.len() == 0 {
        1
    } else {
        product(extents.drop_last()) * (extents.last() as nat)
    }
}

/// The number of elements of a shape: the product of its extents, and zero
/// for the shape without axes.
pub open spec fn element_count(extents: Seq<Ix>) -> nat {
    if extents.len() == 0 {
        0
    } else {
        product(extents)
    }
}

/// Anything that has a rank and one extent per axis.
///
/// A value may fix its shape by itself, as an integer, a tuple or a sequence
/// of integers does. Or it may stand for a shape that is kept elsewhere and
/// read whenever it is asked for, as a dataspace that lives in the runtime
/// is: two readings of such a shape need not agree.
pub trait Dimension {
    /// The extents that the value itself fixes, in axis order, and `None`
    /// where it fixes none: then nothing is known of a reading before it is
    /// made.
    open spec fn shape(&self) -> Option<Seq<Ix>> {
        None
    }

    /// The number of axes.
    fn ndim(&self) -> (rank: usize)
        ensures
            self.shape() matches Some(extents) ==> rank == extents.len(),
    ;

    /// The extent of each axis, in axis order.
    fn dims(&self) -> (dims: Vec<Ix>)
        ensures
            self.shape() matches Some(extents) ==> dims@ == extents,
    ;

    /// The number of elements: the product of the extents, and zero for a
    /// shape without axes.
    fn size(&self) -> (count: Ix)
        requires
            self.shape() matches Some(extents) && element_count(extents) <= usize::MAX,
        ensures
            count == element_count(self.shape()->0),
    {
        let dims = self.dims();
        count_elements(&dims)
    }
}

/// Splitting a shape at axis `k` splits its product.
pub proof fn lemma_product_split(extents: Seq<Ix>, k: int)
    requires
        0 <= k <= extents.len(),
    ensures
        product(extents) == product(extents.take(k)) * product(extents.skip(k)),
    decreases extents.len(),
{
    if k == extents.len() {
        assert(extents.take(k) =~= extents);
        assert(extents.skip(k) =~= Seq::<Ix>::empty());
        assert(product(extents) * 1 == product(extents)) by (nonlinear_arith);
    } else {
        let init = extents.drop_last();
        let last = extents.last() as nat;
        lemma_product_split(init, k);
        assert(init.take(k) =~= extents.take(k));
        assert(init.skip(k) =~= extents.skip(k).drop_last());
        assert(extents.skip(k).last() == extents.last());
        let head = product(extents.take(k));
        let mid = product(init.skip(k));
        assert((head * mid) * last == head * (mid * last)) by (nonlinear_arith);
    }
}

/// One extent of zero makes the product zero.
pub proof fn lemma_product_zero(extents: Seq<Ix>, k: int)
    requires
        0 <= k < extents.len(),
        extents[k] == 0,
    ensures
        product(extents) == 0,
{
    let upto = extents.take(k + 1);
    lemma_product_split(extents, k + 1);
    assert(upto.last() == 0);
    assert(product(upto) == 0) by (nonlinear_arith)
        requires
            product(upto) == product(upto.drop_last()) * 0,
    ;
    assert(product(upto) * product(extents.skip(k + 1)) == 0) by (nonlinear_arith)
        requires
            product(upto) == 0,
    ;
}

/// Without an extent of zero the product is at least one.
pub proof fn lemma_product_positive(extents: Seq<Ix>)
    requires
        forall|k: int| 0 <= k < extents.len() ==> extents[k] > 0,
    ensures
        product(extents) >= 1,
    decreases extents.len(),
{
    if extents.len() > 0 {
        lemma_product_positive(extents.drop_last());
        assert(product(extents.drop_last()) * (extents.last() as nat) >= 1) by (nonlinear_arith)
            requires
                product(extents.drop_last()) >= 1,
                extents.last() >= 1,
        ;
    }
}

/// Multiplies the extents of `dims`, giving zero for no extents at all, and
/// `None` exactly where the number of elements is beyond `usize`.
pub fn checked_count_elements(dims: &Vec<Ix>) -> (count: Option<Ix>)
    ensures
        match count {
            Some(count) => count == element_count(dims@),
            None => element_count(dims@) > usize::MAX,
        },
{
    let n = dims.len();
    if n == 0 {
        return Some(0);
    }
    let mut i: usize = 0;
    while i < n
        invariant
            n == dims.len(),
            i <= n,
            forall|k: int| 0 <= k < i ==> dims@[k] > 0,
        decreases n - i,
    {
        if dims[i] == 0 {
            proof {
                lemma_product_zero(dims@, i as int);
            }
            return Some(0);
        }
        i += 1;
    }
    let mut acc: Ix = 1;
    let mut i: usize = 0;
    while i < n
        invariant
            n == dims.len(),
            0 < n,
            i <= n,
            acc == product(dims@.take(i as int)),
            forall|k: int| 0 <= k < n ==> dims@[k] > 0,
        decreases n - i,
    {
        proof {
            assert(dims@.take(i + 1).drop_last() =~= dims@.take(i as int));
            assert(dims@.take(i + 1).last() == dims@[i as int]);
        }
        match acc.checked_mul(dims[i]) {
            Some(next) => {
                acc = next;
            },
            None => {
                proof {
                    // The rest holds no zero, so the whole product is no
                    // smaller than the prefix that already overflows.
                    let head = product(dims@.take(i + 1));
                    let tail = product(dims@.skip(i + 1));
                    lemma_product_split(dims@, i + 1);
                    lemma_product_positive(dims@.skip(i + 1));
                    assert(head * tail > usize::MAX) by (nonlinear_arith)
                        requires
                            head > usize::MAX,
                            tail >= 1,
                    ;
                }
                return None;
            },
        }
        i += 1;
    }
    proof {
        assert(dims@.take(n as int) =~= dims@);
    }
    Some(acc)
}

/// Multiplies the extents of `dims`, giving zero for no extents at all.
pub fn count_elements(dims: &Vec<Ix>) -> (count: Ix)
    requires
        element_count(dims@) <= usize::MAX,
    ensures
        count == element_count(dims@),
{
    checked_count_elements(dims).unwrap()
}

impl Dimension for () {
    open spec fn shape(&self) -> Option<Seq<Ix>> {
        Some(Seq::empty())
    }

    fn ndim(&self) -> (rank: usize) {
        0
    }

    fn dims(&self) -> (dims: Vec<Ix>) {
        Vec::new()
    }
}

impl Dimension for Ix {
    open spec fn shape(&self) -> Option<Seq<Ix>> {
        Some(seq![*self])
    }

    fn ndim(&self) -> (rank: usize) {
        1
    }

    fn dims(&self) -> (dims: Vec<Ix>) {
        let mut dims: Vec<Ix> = Vec::new();
        dims.push(*self);
        dims
    }
}

impl Dimension for (Ix,) {
    open spec fn shape(&self) -> Option<Seq<Ix>> {
        Some(seq![self.0])
    }

    fn ndim(&self) -> (rank: usize) {
        1
    }

    fn dims(&self) -> (dims: Vec<Ix>) {
        let mut dims: Vec<Ix> = Vec::new();
        dims.push(self.0);
        dims
    }
}

impl Dimension for (Ix, Ix) {
    open spec fn shape(&self) -> Option<Seq<Ix>> {
        Some(seq![self.0, self.1])
    }

    fn ndim(&self) -> (rank: usize) {
        2
    }

    fn dims(&self) -> (dims: Vec<Ix>) {
        let mut dims: Vec<Ix> = Vec::new();
        dims.push(self.0);
        dims.push(self.1);
        dims
    }
}

impl Dimension for Vec<Ix> {
    open spec fn shape(&self) -> Option<Seq<Ix>> {
        Some(self@)
    }

    fn ndim(&self) -> (rank: usize) {
        self.len()
    }

    fn dims(&self) -> (dims: Vec<Ix>) {
        self.clone()
    }
}

impl<'a, T: Dimension> Dimension for &'a T {
    open spec fn shape(&self) -> Option<Seq<Ix>> {
        (**self).shape()
    }

    fn ndim(&self) -> (rank: usize) {
        (**self).ndim()
    }

    fn dims(&self) -> (dims: Vec<Ix>) {
        (**self).dims()
    }
}

/// The runtime's native extent.
pub type Hsize = u64;

/// The native maximum extent that stands for an axis without bound.
pub const UNLIMITED: Hsize = 0xffff_ffff_ffff_ffff;

/// The arguments of the call that creates a dataspace.
#[derive(Debug, PartialEq, Eq)]
pub struct CreateRequest {
    /// The number of axes, as the native integer.
    pub rank: i32,
    /// The current extent of each axis.
    pub dims: Vec<Hsize>,
    /// The greatest extent that each axis may grow to.
    pub max_dims: Vec<Hsize>,
}

/// A creation request as plain values.
pub struct CreateRequestView {
    pub rank: i32,
    pub dims: Seq<Hsize>,
    pub max_dims: Seq<Hsize>,
}

impl View for CreateRequest {
    type V = CreateRequestView;

    open spec fn view(&self) -> CreateRequestView {
        CreateRequestView { rank: self.rank, dims: self.dims@, max_dims: self.max_dims@ }
    }
}

/// The request that creates a dataspace of the given extents: the rank as
/// the native integer, the extents as native extents, and every axis free to
/// grow without bound.
pub open spec fn creation_request(extents: Seq<Ix>) -> CreateRequestView {
    CreateRequestView {
        rank: extents.len() as i32,
        dims: Seq::new(extents.len(), |i: int| extents[i] as Hsize),
        max_dims: Seq::new(extents.len(), |i: int| UNLIMITED),
    }
}

/// The rank that a reply to the rank query stands for: the rank that the
/// runtime returned, and zero where the query failed or what it returned is
/// no rank.
pub open spec fn reported_rank(reply: Option<i32>) -> usize {
    match reply {
        Some(rank) => if rank > 0 {
            rank as usize
        } else {
            0
        },
        None => 0,
    }
}

/// The extents that a reply to the extent query stands for, where `rank`
/// extents were asked for: one extent per axis as the runtime returned them,
/// and none where the query failed or returned another number of extents.
pub open spec fn reported_extents(rank: usize, reply: Option<Seq<Hsize>>) -> Seq<Ix> {
    match reply {
        Some(native) => if native.len() == rank {
            Seq::new(native.len(), |i: int| native[i] as Ix)
        } else {
            Seq::empty()
        },
        None => Seq::empty(),
    }
}

/// A dataspace whose creation has been asked for and not yet answered.
#[derive(Debug, PartialEq, Eq)]
pub struct Creation {
    request: CreateRequest,
}

impl Creation {
    /// The request that this creation waits on.
    pub closed spec fn spec_request(&self) -> CreateRequestView {
        self.request@
    }

    /// Begins the creation of a dataspace of the given extents: states the
    /// request to send to the runtime.
    pub fn for_extents(extents: Vec<Ix>) -> (pending: Creation)
        ensures
            pending.spec_request() == creation_request(extents@),
    {
        let mut dims: Vec<Hsize> = Vec::new();
        let mut max_dims: Vec<Hsize> = Vec::new();
        let mut i: usize = 0;
        while i < extents.len()
            invariant
                i <= extents.len(),
                dims@ == Seq::new(i as nat, |k: int| extents@[k] as Hsize),
                max_dims@ == Seq::new(i as nat, |k: int| UNLIMITED),
            decreases extents.len() - i,
        {
            dims.push(extents[i] as Hsize);
            max_dims.push(UNLIMITED);
            i += 1;
        }
        let rank = #[verifier::truncate] (extents.len() as i32);
        Creation { request: CreateRequest { rank, dims, max_dims } }
    }

    /// The call to make: create a dataspace with these arguments.
    pub fn request(&self) -> (request: &CreateRequest)
        ensures
            request@ == self.spec_request(),
    {
        &self.request
    }

    /// Takes the runtime's answer to the creation call: the new identifier,
    /// or the failure, which is handed on as an error.
    pub fn created(self, reply: Option<Hid>) -> (res: Result<Hid, Error>)
        ensures
            res == match reply {
                Some(id) => Ok::<Hid, Error>(id),
                None => Err::<Hid, Error>(
                    Error::RuntimeCallFailure { call: RuntimeCall::CreateDataspace },
                ),
            },
    {
        match reply {
            Some(id) => Ok(id),
            None => Err(Error::RuntimeCallFailure { call: RuntimeCall::CreateDataspace }),
        }
    }
}

/// The second step of reading extents: the runtime is to fill in `rank`
/// extents of the dataspace `id`.
#[derive(Clone, Copy, Debug, PartialEq, Eq, Structural)]
pub struct ExtentQuery {
    /// The dataspace to ask about.
    pub id: Hid,
    /// The number of extents to ask for. It is positive.
    pub rank: usize,
}

/// Where the reading of extents stands once the rank is known.
#[derive(Debug, PartialEq, Eq)]
pub enum Inspection {
    /// Nothing more to ask: these are the extents.
    Settled(Vec<Ix>),
    /// The extents have to be asked for.
    Pending(ExtentQuery),
}

impl ExtentQuery {
    /// Takes the runtime's answer to the extent query and gives the extents
    /// that it stands for. A failure is not raised: it gives no extents.
    pub fn answered(self, reply: Option<Vec<Hsize>>) -> (dims: Vec<Ix>)
        ensures
            dims@ == reported_extents(
                self.rank,
                match reply {
                    Some(native) => Some(native@),
                    None => None,
                },
            ),
    {
        let mut dims: Vec<Ix> = Vec::new();
        match reply {
            Some(native) => {
                if native.len() == self.rank {
                    let mut i: usize = 0;
                    while i < native.len()
                        invariant
                            i <= native.len(),
                            dims@ == Seq::new(i as nat, |k: int| native@[k] as Ix),
                        decreases native.len() - i,
                    {
                        dims.push(#[verifier::truncate] (native[i] as Ix));
                        i += 1;
                    }
                }
            },
            None => {},
        }
        dims
    }
}

/// A dataspace: a resource of the runtime that holds the rank and the
/// extents of an array. It owns one handle, of kind dataspace.
///
/// Nothing about the shape is kept here. Rank and extents are read from the
/// runtime each time they are asked for.
#[derive(Debug, PartialEq, Eq)]
pub struct Dataspace {
    handle: Handle,
}

impl Dataspace {
    #[verifier::type_invariant]
    spec fn holds_a_dataspace(&self) -> bool {
        self.handle.spec_kind() == ResourceKind::Dataspace
    }

    /// The identifier of the dataspace.
    pub closed spec fn spec_id(&self) -> Hid {
        self.handle.spec_identifier()
    }

    /// Whether the dataspace owns its identifier.
    pub closed spec fn spec_mode(&self) -> Ownership {
        self.handle.spec_mode()
    }

    /// Begins the creation of a dataspace of shape `d`: reads its extents
    /// and states the request to send to the runtime. Where `d` fixes its
    /// shape, the request is the one for that shape; in any case it is the
    /// request for some extents.
    pub fn new<D: Dimension>(d: D) -> (pending: Creation)
        ensures
            d.shape() matches Some(extents) ==> pending.spec_request() == creation_request(
                extents,
            ),
            exists|extents: Seq<Ix>| pending.spec_request() == #[trigger] creation_request(extents),
    {
        let extents = d.dims();
        Creation::for_extents(extents)
    }

    /// Wraps an identifier as a dataspace, given the kind that the runtime
    /// reported for it. Fails exactly when that kind is not dataspace.
    pub fn from_id(id: Hid, reported: Option<ResourceKind>) -> (res: Result<Dataspace, Error>)
        ensures
            match res {
                Ok(space) => reported == Some(ResourceKind::Dataspace) && space.spec_id() == id
                    && space.spec_mode() == Ownership::Owned,
                Err(e) => reported != Some(ResourceKind::Dataspace) && e == (Error::InvalidResource {
                    id,
                }),
            },
    {
        match Handle::wrap_as(ResourceKind::Dataspace, id, reported) {
            Ok(handle) => Ok(Dataspace { handle }),
            Err(e) => Err(e),
        }
    }

    /// The identifier, for calls into the runtime.
    pub fn id(&self) -> (id: Hid)
        ensures
            id == self.spec_id(),
    {
        self.handle.identifier()
    }

    /// Gives the dataspace up for its handle, which is of kind dataspace and
    /// holds the same identifier.
    pub fn into_handle(self) -> (handle: Handle)
        ensures
            handle.spec_identifier() == self.spec_id(),
            handle.spec_kind() == ResourceKind::Dataspace,
            handle.spec_mode() == self.spec_mode(),
    {
        proof {
            use_type_invariant(&self);
        }
        self.handle
    }

    /// The rank that the runtime's reply to the rank query stands for. A
    /// failed query is not raised: it gives rank zero.
    pub fn ndim(&self, reply: Option<i32>) -> (rank: usize)
        ensures
            rank == reported_rank(reply),
    {
        match reply {
            Some(rank) => {
                if rank > 0 {
                    rank as usize
                } else {
                    0
                }
            },
            None => 0,
        }
    }

    /// Begins reading the extents, given the runtime's reply to the rank
    /// query: with rank zero there are no extents, otherwise they are to be
    /// asked for.
    pub fn dims(&self, reply: Option<i32>) -> (step: Inspection)
        ensures
            match step {
                Inspection::Settled(dims) => reported_rank(reply) == 0 && dims@ == Seq::<
                    Ix,
                >::empty(),
                Inspection::Pending(query) => reported_rank(reply) > 0 && query == (ExtentQuery {
                    id: self.spec_id(),
                    rank: reported_rank(reply),
                }),
            },
    {
        let rank = self.ndim(reply);
        if rank > 0 {
            Inspection::Pending(ExtentQuery { id: self.id(), rank })
        } else {
            Inspection::Settled(Vec::new())
        }
    }
}

/// What is written into a creation request is what a faithful runtime gives
/// back: if the runtime answers the rank query with the rank of the request
/// made for `extents`, and the extent query with the request's extents, the
/// replies stand for exactly `extents`.
pub proof fn lemma_request_round_trip(extents: Seq<Ix>)
    requires
        extents.len() <= i32::MAX,
    ensures
        ({
            let request = creation_request(extents);
            &&& reported_rank(Some(request.rank)) == extents.len()
            &&& reported_extents(reported_rank(Some(request.rank)), Some(request.dims))
                == extents
        }),
{
    let request = creation_request(extents);
    let rank = reported_rank(Some(request.rank));
    assert(reported_extents(rank, Some(request.dims)) =~= extents);
}

} // verus!
