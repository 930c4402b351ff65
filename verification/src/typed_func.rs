//! References to script-visible functions by their Godot name.

use vstd::prelude::*;

verus! {

/// A function of class `C` with return type `R` and parameters `Ps`, referred to by its Godot
/// name.
pub struct TypedFunc<C, R, Ps> {
    godot_name: &'static str,
    _return_type: std::marker::PhantomData<R>,
    _param_types: std::marker::PhantomData<(C, Ps)>,
}

impl<C, R, Ps> TypedFunc<C, R, Ps> {
    /// The Godot name of the function.
    pub closed spec fn spec_godot_name(&self) -> Seq<char> {
        self.godot_name@
    }

    /// Refers to the function called `godot_name`.
    pub fn from_godot_name(godot_name: &'static str) -> (r: Self)
        ensures
            r.spec_godot_name() == godot_name@,
    {
        TypedFunc {
            godot_name,
            _return_type: std::marker::PhantomData,
            _param_types: std::marker::PhantomData,
        }
    }

    /// The Godot name of the function.
    pub fn godot_name(&self) -> (r: &'static str)
        ensures
            r@ == self.spec_godot_name(),
    {
        self.godot_name
    }
}

} // verus!
