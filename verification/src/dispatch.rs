//! One call on the automation server: the name is resolved to a method
//! id, the arguments are marshaled in the order given, and the outcome is
//! turned into a value or a structured error.

use crate::safe_variant::{
    decode, encode, lemma_decode_encode, SafeVariant, VariantValue, WinVariant, WinVariantView,
};
use crate::text::str_eq;
use crate::wide::{has_interior_nul, nul_terminated_utf16, to_wide};
use vstd::prelude::*;

verus! {

/// The locale under which names are resolved and calls are made.
pub const LOCALE_ENGLISH_US: u32 = 0x0409;

/// Call flag of a method call.
pub const DISPATCH_METHOD: u16 = 1;

/// Call flag of a property read.
pub const DISPATCH_PROPERTYGET: u16 = 2;

/// The number a server object gives to one of its method or property
/// names. It means something for that object and locale only.
#[derive(Debug, Clone, Copy, PartialEq, Eq, Structural)]
pub struct MethodId {
    pub dispid: i32,
}

/// The server object knows no method or property of the name asked for.
#[derive(Debug, Clone, Copy, PartialEq, Eq, Structural)]
pub struct NotFound {
    /// The status the live lookup ended with.
    pub status: i32,
}

/// What to do to learn the id of a name.
#[derive(Debug, Clone, Copy, PartialEq, Eq, Structural)]
pub enum Resolution {
    /// The id is known; the server is not asked.
    Cached(MethodId),
    /// The server has to be asked.
    LookupNeeded,
}

/// What a resolver knows: the id of each (object identity, name) pair
/// resolved so far.
pub type ResolverCache = Map<(u64, Seq<char>), MethodId>;

/// What `resolve` answers on a cache.
pub open spec fn spec_resolve(cache: ResolverCache, identity: u64, name: Seq<char>) -> Resolution {
    if cache.contains_key((identity, name)) {
        Resolution::Cached(cache[(identity, name)])
    } else {
        Resolution::LookupNeeded
    }
}

/// The cache after `record`: a first successful lookup is kept, and
/// nothing else changes it.
pub open spec fn spec_record_cache(
    cache: ResolverCache,
    identity: u64,
    name: Seq<char>,
    outcome: Result<i32, i32>,
) -> ResolverCache {
    match outcome {
        Ok(dispid) if !cache.contains_key((identity, name)) => cache.insert(
            (identity, name),
            MethodId { dispid },
        ),
        _ => cache,
    }
}

/// What `record` answers: the id already known, else the id just
/// learned, else that the name was not found.
pub open spec fn spec_record_result(
    cache: ResolverCache,
    identity: u64,
    name: Seq<char>,
    outcome: Result<i32, i32>,
) -> Result<MethodId, NotFound> {
    if cache.contains_key((identity, name)) {
        Ok(cache[(identity, name)])
    } else {
        match outcome {
            Ok(dispid) => Ok(MethodId { dispid }),
            Err(status) => Err(NotFound { status }),
        }
    }
}

/// One remembered resolution.
#[derive(Debug)]
struct CacheEntry {
    identity: u64,
    name: String,
    id: MethodId,
}

impl CacheEntry {
    spec fn key(self) -> (u64, Seq<char>) {
        (self.identity, self.name@)
    }
}

/// Remembers the id of each name per server object, so that a name is
/// looked up on the server once. A resolver belongs to one locale: the ids
/// it remembers were learned under that locale and are used under no
/// other.
#[derive(Debug)]
pub struct MethodResolver {
    locale: u32,
    entries: Vec<CacheEntry>,
}

impl MethodResolver {
    /// No pair is remembered twice.
    pub closed spec fn wf(&self) -> bool {
        &&& forall|i: int, j: int|
            0 <= i < j < self.entries@.len() ==> self.entries@[i].key() != self.entries@[j].key()
        &&& self@.dom().finite()
        &&& self@.dom().len() == self.entries@.len()
    }

    /// The pairs remembered.
    pub closed spec fn view(&self) -> ResolverCache {
        Map::new(
            |key: (u64, Seq<char>)|
                exists|i: int| 0 <= i < self.entries@.len() && self.entries@[i].key() == key,
            |key: (u64, Seq<char>)|
                self.entries@[choose|i: int|
                    0 <= i < self.entries@.len() && self.entries@[i].key() == key].id,
        )
    }

    /// The locale of the resolver.
    pub closed spec fn spec_locale(&self) -> u32 {
        self.locale
    }

    /// A resolver for `locale` that knows nothing yet.
    pub fn new(locale: u32) -> (resolver: Self)
        ensures
            resolver.wf(),
            resolver@ == Map::<(u64, Seq<char>), MethodId>::empty(),
            resolver.spec_locale() == locale,
    {
        let resolver = MethodResolver { locale, entries: Vec::new() };
        assert(resolver@.dom() =~= Set::<(u64, Seq<char>)>::empty());
        resolver
    }

    fn position(&self, identity: u64, name: &str) -> (at: Option<usize>)
        requires
            self.wf(),
        ensures
            match at {
                Some(i) => {
                    &&& i < self.entries@.len()
                    &&& self.entries@[i as int].key() == (identity, name@)
                    &&& self@.contains_key((identity, name@))
                    &&& self@[(identity, name@)] == self.entries@[i as int].id
                },
                None => !self@.contains_key((identity, name@)),
            },
    {
        let mut i: usize = 0;
        while i < self.entries.len()
            invariant
                self.wf(),
                i <= self.entries@.len(),
                forall|j: int| 0 <= j < i ==> self.entries@[j].key() != (identity, name@),
            decreases self.entries@.len() - i,
        {
            if self.entries[i].identity == identity && str_eq(self.entries[i].name.as_str(), name) {
                return Some(i);
            }
            i += 1;
        }
        None
    }

    /// The locale under which the resolver's ids were learned.
    pub fn locale(&self) -> (locale: u32)
        ensures
            locale == self.spec_locale(),
    {
        self.locale
    }

    /// Answers from what is remembered. Case matters in `name`; an id
    /// learned for one object says nothing of another.
    pub fn resolve(&self, identity: u64, name: &str) -> (r: Resolution)
        requires
            self.wf(),
        ensures
            r == spec_resolve(self@, identity, name@),
    {
        match self.position(identity, name) {
            Some(i) => Resolution::Cached(self.entries[i].id),
            None => Resolution::LookupNeeded,
        }
    }

    /// Takes in what a live lookup of `name` on the object `identity`
    /// gave: the id, or the failing status. An id is remembered from then
    /// on; a failure is not, and is reported as `NotFound`. A pair that is
    /// already remembered keeps its id.
    pub fn record(&mut self, identity: u64, name: &str, outcome: Result<i32, i32>) -> (r: Result<
        MethodId,
        NotFound,
    >)
        requires
            old(self).wf(),
        ensures
            final(self).wf(),
            final(self).spec_locale() == old(self).spec_locale(),
            final(self)@ == spec_record_cache(old(self)@, identity, name@, outcome),
            r == spec_record_result(old(self)@, identity, name@, outcome),
    {
        match self.position(identity, name) {
            Some(i) => Ok(self.entries[i].id),
            None => match outcome {
                Ok(dispid) => {
                    let id = MethodId { dispid };
                    let ghost before = self.entries@;
                    self.entries.push(CacheEntry { identity, name: name.to_owned(), id });
                    proof {
                        let after = self.entries@;
                        let key = (identity, name@);
                        assert(after[before.len() as int].key() == key);
                        assert forall|known: (u64, Seq<char>)|
                            old(self)@.contains_key(known) implies final(self)@.contains_key(
                            known,
                        ) by {
                            let i = choose|i: int|
                                0 <= i < before.len() && before[i].key() == known;
                            assert(after[i].key() == known);
                        }
                        assert(final(self)@ =~= old(self)@.insert(key, id));
                    }
                    Ok(id)
                },
                Err(status) => Err(NotFound { status }),
            },
        }
    }

    /// How many pairs are remembered.
    pub fn len(&self) -> (n: usize)
        requires
            self.wf(),
        ensures
            n == self@.dom().len(),
    {
        self.entries.len()
    }
}

/// Once a name has been resolved for an object, resolving the same pair
/// again is answered from memory with the same id: the server is not asked
/// a second time.
pub proof fn lemma_second_resolve_is_cached(
    cache: ResolverCache,
    identity: u64,
    name: Seq<char>,
    outcome: Result<i32, i32>,
)
    requires
        spec_record_result(cache, identity, name, outcome) is Ok,
    ensures
        spec_resolve(spec_record_cache(cache, identity, name, outcome), identity, name)
            == Resolution::Cached(spec_record_result(cache, identity, name, outcome)->Ok_0),
{
}

/// What is remembered is never lost or changed by a later `record`, for
/// the same pair or another.
pub proof fn lemma_cache_is_stable(
    cache: ResolverCache,
    identity: u64,
    name: Seq<char>,
    other_identity: u64,
    other_name: Seq<char>,
    outcome: Result<i32, i32>,
)
    requires
        cache.contains_key((identity, name)),
    ensures
        spec_resolve(
            spec_record_cache(cache, other_identity, other_name, outcome),
            identity,
            name,
        ) == spec_resolve(cache, identity, name),
{
}

/// A failed lookup is not remembered: the next resolution of the pair
/// asks the server again, and only if the caller chooses to resolve again.
pub proof fn lemma_failure_is_not_cached(
    cache: ResolverCache,
    identity: u64,
    name: Seq<char>,
    status: i32,
)
    requires
        !cache.contains_key((identity, name)),
    ensures
        spec_record_result(cache, identity, name, Err(status)) == Err::<MethodId, NotFound>(
            NotFound { status },
        ),
        spec_resolve(spec_record_cache(cache, identity, name, Err(status)), identity, name)
            == Resolution::LookupNeeded,
{
}

/// An id learned for one server object is not used for another: a new
/// object is asked anew.
pub proof fn lemma_new_instance_resolves_anew(
    cache: ResolverCache,
    identity: u64,
    new_identity: u64,
    name: Seq<char>,
    dispid: i32,
)
    requires
        identity != new_identity,
        !cache.contains_key((new_identity, name)),
    ensures
        spec_resolve(spec_record_cache(cache, identity, name, Ok(dispid)), new_identity, name)
            == Resolution::LookupNeeded,
{
}

/// Whether a call is a method call or a property read.
#[derive(Debug, Clone, Copy, PartialEq, Eq, Structural)]
pub enum DispatchKind {
    Method,
    PropertyGet,
}

impl DispatchKind {
    pub open spec fn spec_flags(self) -> u16 {
        match self {
            DispatchKind::Method => DISPATCH_METHOD,
            DispatchKind::PropertyGet => DISPATCH_PROPERTYGET,
        }
    }

    /// The call flag handed to the server.
    pub fn flags(self) -> (f: u16)
        ensures
            f == self.spec_flags(),
    {
        match self {
            DispatchKind::Method => DISPATCH_METHOD,
            DispatchKind::PropertyGet => DISPATCH_PROPERTYGET,
        }
    }
}

/// The values of `args`, in order.
pub open spec fn values_of(args: Seq<SafeVariant>) -> Seq<VariantValue> {
    Seq::new(args.len(), |i: int| args[i]@)
}

/// The records of `records`, in order.
pub open spec fn records_of(records: Seq<WinVariant>) -> Seq<WinVariantView> {
    Seq::new(records.len(), |i: int| records[i]@)
}

/// A call to make: the name of the method or property, and the arguments
/// in the order in which the server declares them.
#[derive(Debug, PartialEq, Eq)]
pub struct Invocation {
    pub method: String,
    pub kind: DispatchKind,
    pub args: Vec<SafeVariant>,
}

/// An [`Invocation`] as a mathematical value.
pub struct InvocationView {
    pub method: Seq<char>,
    pub kind: DispatchKind,
    pub args: Seq<VariantValue>,
}

impl View for Invocation {
    type V = InvocationView;

    open spec fn view(&self) -> InvocationView {
        InvocationView { method: self.method@, kind: self.kind, args: values_of(self.args@) }
    }
}

impl Clone for Invocation {
    fn clone(&self) -> (copy: Self)
        ensures
            copy@ == self@,
    {
        let mut args: Vec<SafeVariant> = Vec::new();
        let mut i: usize = 0;
        while i < self.args.len()
            invariant
                i <= self.args@.len(),
                args@.len() == i,
                forall|j: int| 0 <= j < i ==> args@[j]@ == self.args@[j]@,
            decreases self.args@.len() - i,
        {
            args.push(self.args[i].clone());
            i += 1;
        }
        let copy = Invocation { method: self.method.clone(), kind: self.kind, args };
        assert(copy@.args =~= self@.args);
        copy
    }
}

/// The wire parameter block of a call: the marshaled arguments and their
/// count. No argument is named.
#[derive(Debug, PartialEq, Eq)]
pub struct DispParams {
    pub rgvarg: Vec<WinVariant>,
    pub c_args: u32,
    pub c_named_args: u32,
}

/// The block cannot count more arguments than a 32-bit number holds.
#[derive(Debug, Clone, Copy, PartialEq, Eq, Structural)]
pub struct TooManyArguments;

/// The records that `args` are marshaled into: one per argument, each the
/// encoding of the argument at the same place. Nothing is reordered,
/// dropped or added.
pub open spec fn marshaled(args: Seq<VariantValue>) -> Seq<WinVariantView> {
    Seq::new(args.len(), |i: int| encode(args[i]))
}

/// Marshals `args` into a wire parameter block, in the order given.
pub fn create_dispparams_safe(args: &Vec<SafeVariant>) -> (r: Result<DispParams, TooManyArguments>)
    ensures
        match r {
            Ok(params) => {
                &&& args@.len() <= u32::MAX
                &&& records_of(params.rgvarg@) == marshaled(values_of(args@))
                &&& params.c_args == args@.len()
                &&& params.c_named_args == 0
            },
            Err(_) => args@.len() > u32::MAX,
        },
{
    if args.len() > u32::MAX as usize {
        return Err(TooManyArguments);
    }
    let mut rgvarg: Vec<WinVariant> = Vec::new();
    let mut i: usize = 0;
    while i < args.len()
        invariant
            i <= args@.len(),
            rgvarg@.len() == i,
            forall|j: int| 0 <= j < i ==> rgvarg@[j]@ == encode(args@[j]@),
        decreases args@.len() - i,
    {
        rgvarg.push(args[i].to_winvariant());
        i += 1;
    }
    Ok(DispParams { rgvarg, c_args: args.len() as u32, c_named_args: 0 })
}

/// Marshals `args` into a wire parameter block, in the order given.
pub fn create_dispparams_from_slice(args: &Vec<SafeVariant>) -> (r: Result<
    DispParams,
    TooManyArguments,
>)
    ensures
        match r {
            Ok(params) => {
                &&& args@.len() <= u32::MAX
                &&& records_of(params.rgvarg@) == marshaled(values_of(args@))
                &&& params.c_args == args@.len()
                &&& params.c_named_args == 0
            },
            Err(_) => args@.len() > u32::MAX,
        },
{
    create_dispparams_safe(args)
}

/// A block without arguments.
pub fn create_empty_dispparams() -> (params: DispParams)
    ensures
        params.rgvarg@.len() == 0,
        params.c_args == 0,
        params.c_named_args == 0,
{
    DispParams { rgvarg: Vec::new(), c_args: 0, c_named_args: 0 }
}

/// Unmarshaling a marshaled block gives the arguments back, each at its
/// place: marshaling keeps their number and their order.
pub proof fn lemma_marshal_keeps_order(args: Seq<VariantValue>)
    ensures
        marshaled(args).len() == args.len(),
        forall|i: int| 0 <= i < args.len() ==> decode(#[trigger] marshaled(args)[i]) == Some(args[i]),
{
    assert forall|i: int| 0 <= i < args.len() implies decode(#[trigger] marshaled(args)[i])
        == Some(args[i]) by {
        lemma_decode_encode(args[i]);
    }
}

/// The exception record the server fills in when a call fails. A `None`
/// is a string the server left null.
#[derive(Debug, PartialEq, Eq)]
pub struct ExcepInfo {
    pub w_code: u16,
    pub source: Option<String>,
    pub description: Option<String>,
    pub scode: i32,
}

/// A failed call, with the diagnostic fields of the server's exception
/// record.
#[derive(Debug, PartialEq, Eq)]
pub struct DispatchError {
    /// The status the call ended with.
    pub code: i32,
    pub description: String,
    pub source: String,
    pub scode: i32,
}

/// A [`DispatchError`] as a mathematical value.
pub struct DispatchErrorView {
    pub code: i32,
    pub description: Seq<char>,
    pub source: Seq<char>,
    pub scode: i32,
}

impl View for DispatchError {
    type V = DispatchErrorView;

    open spec fn view(&self) -> DispatchErrorView {
        DispatchErrorView {
            code: self.code,
            description: self.description@,
            source: self.source@,
            scode: self.scode,
        }
    }
}

impl Clone for DispatchError {
    fn clone(&self) -> (copy: Self)
        ensures
            copy@ == self@,
    {
        DispatchError {
            code: self.code,
            description: self.description.clone(),
            source: self.source.clone(),
            scode: self.scode,
        }
    }
}

/// The characters of an optional string, none for a null one.
pub open spec fn text_or_empty(text: Option<String>) -> Seq<char> {
    match text {
        Some(s) => s@,
        None => Seq::<char>::empty(),
    }
}

/// Whether a status signals failure.
pub open spec fn failed(status: i32) -> bool {
    status < 0
}

/// Why a call gave no value.
#[derive(Debug, PartialEq, Eq)]
pub enum InvokeError {
    /// The name holds a nul before its end, so that no server can be asked
    /// for it; the call was not made.
    InvalidName,
    /// The name could not be resolved; the call was not made.
    Resolution(NotFound),
    /// The arguments could not be marshaled; the call was not made.
    Marshal(TooManyArguments),
    /// The call was made and failed.
    Invocation(DispatchError),
    /// The call succeeded with a result whose type code the bridge does
    /// not read.
    UnsupportedResult { vt: u16 },
}

/// An [`InvokeError`] as a mathematical value.
pub enum InvokeErrorView {
    InvalidName,
    Resolution(NotFound),
    Marshal(TooManyArguments),
    Invocation(DispatchErrorView),
    UnsupportedResult { vt: u16 },
}

impl View for InvokeError {
    type V = InvokeErrorView;

    open spec fn view(&self) -> InvokeErrorView {
        match self {
            InvokeError::InvalidName => InvokeErrorView::InvalidName,
            InvokeError::Resolution(not_found) => InvokeErrorView::Resolution(*not_found),
            InvokeError::Marshal(e) => InvokeErrorView::Marshal(*e),
            InvokeError::Invocation(error) => InvokeErrorView::Invocation(error@),
            InvokeError::UnsupportedResult { vt } => InvokeErrorView::UnsupportedResult { vt: *vt },
        }
    }
}

impl Clone for InvokeError {
    fn clone(&self) -> (copy: Self)
        ensures
            copy@ == self@,
    {
        match self {
            InvokeError::InvalidName => InvokeError::InvalidName,
            InvokeError::Resolution(not_found) => InvokeError::Resolution(*not_found),
            InvokeError::Marshal(e) => InvokeError::Marshal(*e),
            InvokeError::Invocation(error) => InvokeError::Invocation(error.clone()),
            InvokeError::UnsupportedResult { vt } => InvokeError::UnsupportedResult { vt: *vt },
        }
    }
}

/// The calls of `calls`, in order.
pub open spec fn invocations_of(calls: Seq<Invocation>) -> Seq<InvocationView> {
    Seq::new(calls.len(), |i: int| calls[i]@)
}

/// What to do next for a call.
#[derive(Debug, PartialEq, Eq)]
pub enum InvokeStep {
    /// Ask the server object for the id of `name` under `locale`, and hand
    /// the outcome to [`DispatchInvoker::resolved`]. `wide_name` is the
    /// name as the server takes it.
    Lookup { name: String, wide_name: Vec<u16>, locale: u32 },
    /// Make the call, and hand the outcome to [`DispatchInvoker::finish`].
    Call { id: MethodId, locale: u32, flags: u16, params: DispParams },
}

/// Carries out one call in steps: resolve, marshal, call, read the outcome. It
/// never retries.
pub struct DispatchInvoker;

/// Whether `step` is the call of `call` under the id `id` and the locale
/// `under`: same flags, the arguments marshaled in the order of `call`.
pub open spec fn is_call_of(
    step: InvokeStep,
    call: InvocationView,
    id: MethodId,
    under: u32,
) -> bool {
    match step {
        InvokeStep::Call { id: step_id, locale, flags, params } => {
            &&& step_id == id
            &&& locale == under
            &&& flags == call.kind.spec_flags()
            &&& records_of(params.rgvarg@) == marshaled(call.args)
            &&& params.c_args == call.args.len()
            &&& params.c_named_args == 0
        },
        InvokeStep::Lookup { .. } => false,
    }
}

impl DispatchInvoker {
    fn call_step(call: &Invocation, id: MethodId, locale: u32) -> (r: Result<
        InvokeStep,
        InvokeError,
    >)
        ensures
            match r {
                Ok(step) => call@.args.len() <= u32::MAX && is_call_of(step, call@, id, locale),
                Err(e) => call@.args.len() > u32::MAX && e == InvokeError::Marshal(TooManyArguments),
            },
    {
        match create_dispparams_safe(&call.args) {
            Ok(params) => Ok(InvokeStep::Call { id, locale, flags: call.kind.flags(), params }),
            Err(e) => Err(InvokeError::Marshal(e)),
        }
    }

    /// The first step of `call` on the server object `identity`: the call
    /// itself where the id of the name is remembered, a live lookup of the
    /// name where it is not. A name that no server can be asked for is
    /// refused at once.
    pub fn start(resolver: &MethodResolver, identity: u64, call: &Invocation) -> (r: Result<
        InvokeStep,
        InvokeError,
    >)
        requires
            resolver.wf(),
        ensures
            match spec_resolve(resolver@, identity, call@.method) {
                Resolution::Cached(id) => match r {
                    Ok(step) => call@.args.len() <= u32::MAX && is_call_of(
                        step,
                        call@,
                        id,
                        resolver.spec_locale(),
                    ),
                    Err(e) => call@.args.len() > u32::MAX && e == InvokeError::Marshal(
                        TooManyArguments,
                    ),
                },
                Resolution::LookupNeeded => if has_interior_nul(call@.method) {
                    r == Err::<InvokeStep, InvokeError>(InvokeError::InvalidName)
                } else {
                    &&& r matches Ok(InvokeStep::Lookup { name, wide_name, locale })
                    &&& name@ == call@.method
                    &&& wide_name@ == nul_terminated_utf16(call@.method)
                    &&& wide_name@.len() >= 1
                    &&& wide_name@.last() == 0
                    &&& locale == resolver.spec_locale()
                },
            },
    {
        match resolver.resolve(identity, call.method.as_str()) {
            Resolution::Cached(id) => Self::call_step(call, id, resolver.locale()),
            Resolution::LookupNeeded => match to_wide(call.method.as_str()) {
                Some(wide_name) => Ok(
                    InvokeStep::Lookup {
                        name: call.method.clone(),
                        wide_name,
                        locale: resolver.locale(),
                    },
                ),
                None => Err(InvokeError::InvalidName),
            },
        }
    }

    /// The step after a live lookup: the call under the id that the
    /// lookup gave, which the resolver remembers from now on; or, where the
    /// lookup failed, `NotFound`, with nothing remembered and no call made.
    pub fn resolved(
        resolver: &mut MethodResolver,
        identity: u64,
        call: &Invocation,
        outcome: Result<i32, i32>,
    ) -> (r: Result<InvokeStep, InvokeError>)
        requires
            old(resolver).wf(),
        ensures
            final(resolver).wf(),
            final(resolver).spec_locale() == old(resolver).spec_locale(),
            final(resolver)@ == spec_record_cache(old(resolver)@, identity, call@.method, outcome),
            match spec_record_result(old(resolver)@, identity, call@.method, outcome) {
                Ok(id) => match r {
                    Ok(step) => call@.args.len() <= u32::MAX && is_call_of(
                        step,
                        call@,
                        id,
                        old(resolver).spec_locale(),
                    ),
                    Err(e) => call@.args.len() > u32::MAX && e == InvokeError::Marshal(
                        TooManyArguments,
                    ),
                },
                Err(not_found) => r == Err::<InvokeStep, InvokeError>(
                    InvokeError::Resolution(not_found),
                ),
            },
    {
        match resolver.record(identity, call.method.as_str(), outcome) {
            Ok(id) => Self::call_step(call, id, resolver.locale()),
            Err(not_found) => Err(InvokeError::Resolution(not_found)),
        }
    }

    /// Turns what the call gave into its result. A failing status gives
    /// the error with the status and the fields of the exception record,
    /// null strings read as empty. Otherwise the result record is read
    /// under its own type code.
    pub fn finish(status: i32, result: &WinVariant, excepinfo: &ExcepInfo) -> (r: Result<
        SafeVariant,
        InvokeError,
    >)
        ensures
            failed(status) ==> {
                &&& r matches Err(InvokeError::Invocation(error))
                &&& error@ == DispatchErrorView {
                    code: status,
                    description: text_or_empty(excepinfo.description),
                    source: text_or_empty(excepinfo.source),
                    scode: excepinfo.scode,
                }
            },
            !failed(status) ==> match decode(result@) {
                Some(value) => r is Ok && r->Ok_0@ == value,
                None => r == Err::<SafeVariant, InvokeError>(
                    InvokeError::UnsupportedResult { vt: result.vt },
                ),
            },
    {
        if status < 0 {
            let description = match &excepinfo.description {
                Some(s) => s.clone(),
                None => String::new(),
            };
            let source = match &excepinfo.source {
                Some(s) => s.clone(),
                None => String::new(),
            };
            Err(
                InvokeError::Invocation(
                    DispatchError { code: status, description, source, scode: excepinfo.scode },
                ),
            )
        } else {
            match SafeVariant::from_winvariant(result) {
                Some(value) => Ok(value),
                None => Err(InvokeError::UnsupportedResult { vt: result.vt }),
            }
        }
    }
}

} // verus!
