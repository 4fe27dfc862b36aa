use vstd::prelude::*;

verus! {

/// An optional value: a container that either holds a value of type `T`
/// ("present") or holds nothing ("absent").
///
/// The whole abstraction rests on one primitive, `fold`: every other
/// combinator in this crate is derived from it. A type implementing this
/// trait also describes itself to the verifier through two specification
/// functions, `present` and `value`, which say whether a value is held and
/// which value that is; `fold`'s contract is stated in terms of them.
pub trait Optional<T>: Sized {
    /// Whether this optional currently holds a value.
    spec fn present(&self) -> bool;

    /// The held value; meaningful only when `present` holds.
    spec fn value(&self) -> T;

    /// The single primitive: reduce the optional to a plain value of type
    /// `U`, applying `f` to the held value when one is present and returning
    /// `default` untouched (without invoking `f`) when none is.
    fn fold<U, F>(self, default: U, f: F) -> (r: U) where F: FnOnce(T) -> U
        requires
            self.present() ==> call_requires(f, (self.value(),)),
        ensures
            self.present() ==> call_ensures(f, (self.value(),), r),
            !self.present() ==> r == default,
    ;
}

impl<T> Optional<T> for Option<T> {
    open spec fn present(&self) -> bool {
        *self is Some
    }

    open spec fn value(&self) -> T {
        self->Some_0
    }

    fn fold<U, F>(self, default: U, f: F) -> (r: U) where F: FnOnce(T) -> U {
        match self {
            Some(v) => f(v),
            None => default,
        }
    }
}

/// Returns the contained value, or `default` when the optional is absent.
pub fn get_or_else<T, U>(item: T, default: U) -> (r: U) where T: Optional<U>
    ensures
        item.present() ==> r == item.value(),
        !item.present() ==> r == default,
{
    item.fold(default, |val: U| -> (res: U) ensures res == val { val })
}

/// Returns `true` exactly when the optional holds a value.
pub fn is_some<T, U>(item: T) -> (r: bool) where T: Optional<U>
    ensures
        r == item.present(),
{
    item.fold(false, |_val: U| -> (res: bool) ensures res { true })
}

/// Returns `true` exactly when the optional holds nothing.
pub fn is_none<T, U>(item: T) -> (r: bool) where T: Optional<U>
    ensures
        r == !item.present(),
{
    item.fold(true, |_val: U| -> (res: bool) ensures !res { false })
}

/// The two presence tests are exact opposites: whenever `is_some` answers
/// `a` and `is_none` answers `b` on the same optional, `a == !b`.
pub proof fn lemma_is_some_negates_is_none<T, U>(item: T, a: bool, b: bool) where T: Optional<U>
    requires
        call_ensures(is_some::<T, U>, (item,), a),
        call_ensures(is_none::<T, U>, (item,), b),
    ensures
        a == !b,
{
}

/// Transforms the held value with `f`, keeping absence as it is: a present
/// value `v` becomes `Some(f(v))`, an absent optional becomes `None`.
pub fn map<U, V, F>(item: impl Optional<U>, f: F) -> (r: Option<V>) where F: FnOnce(U) -> V
    requires
        item.present() ==> call_requires(f, (item.value(),)),
    ensures
        !item.present() ==> r is None,
        item.present() ==> r is Some && call_ensures(f, (item.value(),), r->Some_0),
{
    let wrap = |val: U| -> (res: Option<V>)
        requires call_requires(f, (val,))
        ensures res is Some && call_ensures(f, (val,), res->Some_0)
        {
            Some(f(val))
        };
    item.fold(None, wrap)
}

/// Chains the optional with `f`, a function that itself returns an optional:
/// a present value `v` yields `f(v)`, an absent optional stays `None`.
pub fn and_then<T, U, V, F>(item: T, f: F) -> (r: Option<V>) where
    T: Optional<U>,
    F: FnOnce(U) -> Option<V>,

    requires
        item.present() ==> call_requires(f, (item.value(),)),
    ensures
        !item.present() ==> r is None,
        item.present() ==> call_ensures(f, (item.value(),), r),
{
    let chain = |val: U| -> (res: Option<V>)
        requires call_requires(f, (val,))
        ensures call_ensures(f, (val,), res)
        {
            f(val)
        };
    item.fold(None, chain)
}

/// Keeps a present value only when it satisfies `predicate`: a present `v`
/// stays `Some(v)` exactly when `predicate(&v)` answers `true`, and becomes
/// `None` otherwise; an absent optional stays `None`. The predicate receives
/// the value by shared borrow, since the value may have to be returned
/// unchanged.
pub fn filter<T, U, F>(item: T, predicate: F) -> (r: Option<U>) where
    T: Optional<U>,
    F: FnOnce(&U) -> bool,

    requires
        item.present() ==> call_requires(predicate, (&item.value(),)),
    ensures
        !item.present() ==> r is None,
        item.present() && r is Some ==> r->Some_0 == item.value()
            && call_ensures(predicate, (&item.value(),), true),
        item.present() && r is None ==> call_ensures(predicate, (&item.value(),), false),
{
    let keep = |val: U| -> (res: Option<U>)
        requires call_requires(predicate, (&val,))
        ensures
            res is Some ==> res->Some_0 == val && call_ensures(predicate, (&val,), true),
            res is None ==> call_ensures(predicate, (&val,), false)
        {
            if predicate(&val) {
                Some(val)
            } else {
                None
            }
        };
    item.fold(None, keep)
}

/// Returns the optional itself when it holds a value; otherwise calls
/// `default` and returns whatever optional it produces. The fallback is
/// lazy: `default` is invoked only on the absent path, never when a value
/// is already present.
pub fn or_else<T, U, F>(item: T, default: F) -> (r: Option<U>) where
    T: Optional<U>,
    F: FnOnce() -> Option<U>,

    requires
        !item.present() ==> call_requires(default, ()),
    ensures
        item.present() ==> r == Some(item.value()),
        !item.present() ==> call_ensures(default, (), r),
{
    let own = item.fold(None, |val: U| -> (res: Option<U>) ensures res == Some(val) { Some(val) });
    match own {
        Some(v) => Some(v),
        None => default(),
    }
}

/// Returns the present value when exactly one of the two operands holds one,
/// and `None` when both do or neither does.
pub fn xor<T, U>(item: T, other: Option<U>) -> (r: Option<U>) where T: Optional<U>
    ensures
        item.present() && other is None ==> r == Some(item.value()),
        !item.present() ==> r == other,
        item.present() && other is Some ==> r is None,
{
    // Presence of `other` is checked before `other` is handed to `fold` as
    // the default, so each contained value is consumed at most once.
    let other_has_value = other.is_some();
    let pick = |val: U| -> (res: Option<U>)
        ensures res == (if other_has_value { None } else { Some(val) })
        {
            if other_has_value {
                None
            } else {
                Some(val)
            }
        };
    item.fold(other, pick)
}

} // verus!
