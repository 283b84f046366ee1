//! ## Core validation traits and types

use vstd::prelude::*;

use crate::error::{Path, PathView, Report, ReportView};

verus! {

/// Whether `builder` builds `path`: whatever path it returns reads `path`.
pub open spec fn builds<F: Fn() -> Path>(builder: &F, path: PathView) -> bool {
    forall|p: Path| #[trigger] builder.ensures((), p) ==> p@ == path
}

/// Whether `result` is what a validation run returns when it has found
/// `violations`: success where there are none, else a report of all of them.
pub open spec fn verdict(violations: ReportView, result: Result<(), Report>) -> bool {
    match result {
        Ok(_) => violations.len() == 0,
        Err(report) => violations.len() > 0 && report@ == violations,
    }
}

/// The core trait of this crate.
///
/// Validation runs the fields through every validation rules,
/// and aggregates any errors into a [`Report`].
pub trait Validate {
    /// A user-provided context.
    ///
    /// Custom validators receive a reference to this context.
    type Context;

    /// Everything that is wrong with `self` under `ctx`, in the order in
    /// which the rules are checked, each error at its path below `parent`.
    ///
    /// An implementation says what it checks by giving this function a body.
    /// Where it gives none, all that is known of the violations is that they
    /// depend on nothing but the value, the context and the parent path.
    open spec fn violations(&self, ctx: &Self::Context, parent: PathView) -> ReportView {
        arbitrary::<spec_fn(&Self, &Self::Context, PathView) -> ReportView>()(self, ctx, parent)
    }

    /// The most components that validating `self` joins below the parent
    /// path. A caller leaves room for that many, so that no path grows past
    /// what its length can count.
    ///
    /// An implementation states its depth by giving this function a body.
    /// Where it gives none, all that is known of the depth is that it depends
    /// on nothing but the value.
    open spec fn depth(&self) -> nat {
        arbitrary::<spec_fn(&Self) -> nat>()(self)
    }

    /// Validates `Self` under the default context, returning an `Err` with an
    /// aggregate of all errors if the validation failed.
    ///
    /// This method should not be implemented manually. Implement
    /// [`Validate::validate_into`] instead.
    fn validate(&self) -> (result: Result<(), Report>) where Self::Context: Default
        requires
            self.depth() <= usize::MAX,
        ensures
            exists|ctx: Self::Context|
                Self::Context::default.ensures((), ctx) && #[trigger] verdict(
                    self.violations(&ctx, PathView::empty()),
                    result,
                ),
    {
        let ctx = Self::Context::default();
        let result = self.validate_with(&ctx);
        assert(verdict(self.violations(&ctx, PathView::empty()), result));
        result
    }

    /// Validates `Self`, returning an `Err` with an aggregate of all errors if
    /// the validation failed.
    ///
    /// This method should not be implemented manually. Implement
    /// [`Validate::validate_into`] instead.
    fn validate_with(&self, ctx: &Self::Context) -> (result: Result<(), Report>)
        requires
            self.depth() <= usize::MAX,
        ensures
            verdict(self.violations(ctx, PathView::empty()), result),
    {
        let mut report = Report::new();
        self.validate_into(ctx, &Path::empty, &mut report);
        assert(builds(&Path::empty, PathView::empty()));
        assert(report@ =~= self.violations(ctx, PathView::empty()));
        match report.is_empty() {
            true => Ok(()),
            false => Err(report),
        }
    }

    /// Validates `Self`, aggregating all validation errors into `Report`.
    ///
    /// Every rule is checked, whether or not an earlier one has failed, and
    /// every violation is appended behind what `report` holds already.
    /// `parent` builds the path of `self`; it is there to be called when a
    /// violation is recorded, so that a value with nothing wrong costs no
    /// path. To validate a field, hand on a closure that calls `parent` and
    /// joins the field's name to what it returns.
    fn validate_into<F: Fn() -> Path>(&self, ctx: &Self::Context, parent: &F, report: &mut Report)
        requires
            parent.requires(()),
            forall|p: Path| #[trigger] parent.ensures((), p) ==> p@.len() + self.depth() <= usize::MAX,
        ensures
            forall|path: PathView| #[trigger]
                builds(parent, path) ==> final(report)@ == old(report)@ + self.violations(
                    ctx,
                    path,
                ),
    ;
}

/// A struct which wraps a valid instance of some `T`.
///
/// The only way to create an instance of this struct is through the `validate`
/// function on the [`Unvalidated`] type. This ensures that if you have a `Valid<T>`,
/// it was definitely validated at some point. This is commonly referred to as the
/// typestate pattern.
#[derive(Debug)]
pub struct Valid<T: Validate>(T);

impl<T: Validate + Copy> Clone for Valid<T> {
    /// A copy of a validated value is that same value, so it is valid too.
    fn clone(&self) -> (valid: Self)
        ensures
            valid == *self,
    {
        *self
    }
}

impl<T: Validate + Copy> Copy for Valid<T> {

}

impl<T: Validate> View for Valid<T> {
    type V = T;

    /// The value that was validated.
    closed spec fn view(&self) -> T {
        self.0
    }
}

/// Whether `value` has passed validation under some context: there is a
/// context under which nothing is wrong with it.
pub open spec fn passes<T: Validate>(value: T) -> bool {
    exists|ctx: T::Context| #[trigger] value.violations(&ctx, PathView::empty()).len() == 0
}

impl<T: Validate> Valid<T> {
    /// No `Valid` holds a value that has not passed validation.
    #[verifier::type_invariant]
    spec fn validated(self) -> bool {
        passes(self.0)
    }

    /// Returns the inner value.
    pub fn into_inner(self) -> (value: T)
        ensures
            value == self@,
            passes(value),
    {
        proof {
            use_type_invariant(&self);
        }
        self.0
    }
}

impl<T: Validate> std::ops::Deref for Valid<T> {
    type Target = T;

    fn deref(&self) -> (value: &T)
        ensures
            *value == self@,
            passes(*value),
    {
        proof {
            use_type_invariant(self);
        }
        &self.0
    }
}

/// A struct which wraps a potentially invalid instance of some `T`.
///
/// Use the `validate` method to turn this type into a `Valid<T>`.
pub struct Unvalidated<T>(T);

impl<T: Clone> Clone for Unvalidated<T> {
    /// Wraps a clone of the value, whatever `T` makes it.
    fn clone(&self) -> (unvalidated: Self)
        ensures
            cloned(self@, unvalidated@),
    {
        Self(self.0.clone())
    }
}

impl<T: Copy> Copy for Unvalidated<T> {

}

impl<T: Default> Default for Unvalidated<T> {
    /// Wraps the default value of `T`, whatever `T` makes it.
    fn default() -> (unvalidated: Self)
        ensures
            T::default.ensures((), unvalidated@),
    {
        Self(T::default())
    }
}

impl<T: Validate> From<T> for Unvalidated<T> {
    fn from(value: T) -> (unvalidated: Self)
        ensures
            unvalidated@ == value,
    {
        Self(value)
    }
}

impl<T: Validate> vstd::std_specs::convert::FromSpecImpl<T> for Unvalidated<T> {
    open spec fn obeys_from_spec() -> bool {
        true
    }

    closed spec fn from_spec(value: T) -> Self {
        Unvalidated(value)
    }
}

impl<T> View for Unvalidated<T> {
    type V = T;

    /// The value that awaits validation.
    closed spec fn view(&self) -> T {
        self.0
    }
}

/// Whether `result` is what validating `value` into a [`Valid`] returns when
/// it has found `violations`: the same value, certified, where there are
/// none, else a report of all of them.
pub open spec fn certified<T: Validate>(
    value: T,
    violations: ReportView,
    result: Result<Valid<T>, Report>,
) -> bool {
    match result {
        Ok(valid) => violations.len() == 0 && valid@ == value,
        Err(report) => violations.len() > 0 && report@ == violations,
    }
}

impl<T: Validate> Unvalidated<T> {
    /// Creates an `Unvalidated<T>`
    pub fn new(v: T) -> (unvalidated: Self)
        ensures
            unvalidated@ == v,
    {
        Self(v)
    }

    /// Validates `self` under the default context, transforming it into a
    /// `Valid<T>`. This is the only way to create an instance of `Valid<T>`.
    pub fn validate(self) -> (result: Result<Valid<T>, Report>) where
        <T as Validate>::Context: Default,

        requires
            self@.depth() <= usize::MAX,
        ensures
            exists|ctx: T::Context|
                T::Context::default.ensures((), ctx) && #[trigger] certified(
                    self@,
                    self@.violations(&ctx, PathView::empty()),
                    result,
                ),
    {
        let ctx = T::Context::default();
        let result = self.validate_with(&ctx);
        assert(certified(self@, self@.violations(&ctx, PathView::empty()), result));
        result
    }

    /// Validates `self`, transforming it into a `Valid<T>`.
    /// This is the only way to create an instance of `Valid<T>`.
    pub fn validate_with(self, ctx: &<T as Validate>::Context) -> (result: Result<
        Valid<T>,
        Report,
    >)
        requires
            self@.depth() <= usize::MAX,
        ensures
            certified(self@, self@.violations(ctx, PathView::empty()), result),
    {
        match self.0.validate_with(ctx) {
            Ok(_) => Ok(Valid(self.0)),
            Err(report) => Err(report),
        }
    }
}

/// Validation succeeds exactly when nothing is wrong, and a failure reports
/// every violation: as many pairs as there are violations, the same pairs,
/// in the same order.
pub proof fn lemma_verdict_is_complete(violations: ReportView, result: Result<(), Report>)
    requires
        verdict(violations, result),
    ensures
        result is Ok <==> violations.len() == 0,
        result matches Err(report) ==> report@.len() == violations.len() && report@ == violations,
{
}

/// Validating one value twice under one context gives the same outcome both
/// times: both succeed with the value, or both fail with reports that hold
/// the same pairs of path and message in the same order.
pub proof fn lemma_validation_repeats<T: Validate>(
    value: T,
    ctx: T::Context,
    first: Result<Valid<T>, Report>,
    second: Result<Valid<T>, Report>,
)
    requires
        certified(value, value.violations(&ctx, PathView::empty()), first),
        certified(value, value.violations(&ctx, PathView::empty()), second),
    ensures
        first is Ok <==> second is Ok,
        first matches Ok(a) ==> second matches Ok(b) && a@ == b@,
        first matches Err(a) ==> second matches Err(b) && a@ == b@,
{
}

impl<T: ?Sized + Validate> Validate for &T {
    type Context = T::Context;

    open spec fn violations(&self, ctx: &Self::Context, parent: PathView) -> ReportView {
        (**self).violations(ctx, parent)
    }

    open spec fn depth(&self) -> nat {
        (**self).depth()
    }

    fn validate_into<F: Fn() -> Path>(&self, ctx: &Self::Context, parent: &F, report: &mut Report) {
        (**self).validate_into(ctx, parent, report)
    }
}

impl<T: ?Sized + Validate> Validate for &mut T {
    type Context = T::Context;

    open spec fn violations(&self, ctx: &Self::Context, parent: PathView) -> ReportView {
        (**self).violations(ctx, parent)
    }

    open spec fn depth(&self) -> nat {
        (**self).depth()
    }

    fn validate_into<F: Fn() -> Path>(&self, ctx: &Self::Context, parent: &F, report: &mut Report) {
        (**self).validate_into(ctx, parent, report)
    }
}

} // verus!
