use vstd::prelude::*;

verus! {

/// `if_debug` wraps its value exactly in debug builds.
pub open spec fn wraps_in_debug(debug_assertions: bool) -> bool {
    debug_assertions
}

/// `if_release` wraps its value exactly in release builds.
pub open spec fn wraps_in_release(debug_assertions: bool) -> bool {
    !debug_assertions
}

/// Wraps the value that `v` makes in `Some` if the application is built with
/// debug assertions (`debug_assertions` is the build's flag); otherwise `v`
/// is not called and the result is `None`.
pub fn if_debug<T, F: FnOnce() -> T>(debug_assertions: bool, v: F) -> (wrapped: Option<T>)
    requires
        debug_assertions ==> call_requires(v, ()),
    ensures
        wrapped is Some <==> wraps_in_debug(debug_assertions),
        wrapped matches Some(value) ==> call_ensures(v, (), value),
{
    if debug_assertions {
        Some(v())
    } else {
        None
    }
}

/// Wraps the value that `v` makes in `Some` if the application is built
/// without debug assertions; otherwise `v` is not called and the result is
/// `None`.
pub fn if_release<T, F: FnOnce() -> T>(debug_assertions: bool, v: F) -> (wrapped: Option<T>)
    requires
        !debug_assertions ==> call_requires(v, ()),
    ensures
        wrapped is Some <==> wraps_in_release(debug_assertions),
        wrapped matches Some(value) ==> call_ensures(v, (), value),
{
    if debug_assertions {
        None
    } else {
        Some(v())
    }
}

/// In every build exactly one of `if_debug` and `if_release` wraps its value.
pub proof fn lemma_debug_release_exclusive(debug_assertions: bool)
    ensures
        wraps_in_debug(debug_assertions) != wraps_in_release(debug_assertions),
{
}

} // verus!
