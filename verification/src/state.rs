//! The session state record and its verified accessors.

use vstd::prelude::*;

verus! {

/// Smallest representable step of the decimal field: one ten-thousandth of a
/// unit. A decimal value `d` (in units) is stored as `d * 10_000`.
pub const DECIMAL_UNITS_PER_WHOLE: i64 = 10_000;

/// Lower bound of the decimal field, in ten-thousandths: -10 whole units.
pub const DECIMAL_MIN_UNITS: i64 = -100_000;

/// Upper bound of the decimal field, in ten-thousandths: 10 whole units.
pub const DECIMAL_MAX_UNITS: i64 = 100_000;

/// Mathematical image of a session state: what each field holds, with the
/// counter and the decimal as unbounded integers and the texts as character
/// sequences.
pub ghost struct StateView {
    pub counter: int,
    pub message: Seq<char>,
    pub gum: Seq<char>,
    pub ice_shape: Seq<char>,
    pub decimal: int,
}

/// The state every fresh record starts in.
pub open spec fn initial_state() -> StateView {
    StateView {
        counter: 0,
        message: "Rust WASM is so Sigma!"@,
        gum: "Hubba Bubba"@,
        ice_shape: "Cube"@,
        decimal: 0,
    }
}

/// The counter overwritten with `n`, every other field untouched.
pub open spec fn with_counter(s: StateView, n: int) -> StateView {
    StateView { counter: n, ..s }
}

/// The counter one higher, wrapping around at the top of the `i32` range;
/// every other field untouched.
pub open spec fn incremented(s: StateView) -> StateView {
    StateView { counter: wrap_inc(s.counter), ..s }
}

/// Successor within the `i32` range: `c + 1`, except that the largest value
/// wraps to the smallest.
pub open spec fn wrap_inc(c: int) -> int {
    if c == i32::MAX as int {
        i32::MIN as int
    } else {
        c + 1
    }
}

/// The message replaced by `m`, every other field untouched.
pub open spec fn with_message(s: StateView, m: Seq<char>) -> StateView {
    StateView { message: m, ..s }
}

/// The gum replaced by `g`, every other field untouched.
pub open spec fn with_gum(s: StateView, g: Seq<char>) -> StateView {
    StateView { gum: g, ..s }
}

/// The ice shape replaced by `i`, every other field untouched.
pub open spec fn with_ice_shape(s: StateView, i: Seq<char>) -> StateView {
    StateView { ice_shape: i, ..s }
}

/// The decimal replaced by `d`, every other field untouched.
pub open spec fn with_decimal(s: StateView, d: int) -> StateView {
    StateView { decimal: d, ..s }
}

/// `v` constrained to the decimal range: out-of-range values are replaced by
/// the nearer bound, in-range values pass through unchanged.
pub open spec fn clamp_decimal(v: int) -> int {
    if v < DECIMAL_MIN_UNITS as int {
        DECIMAL_MIN_UNITS as int
    } else if v > DECIMAL_MAX_UNITS as int {
        DECIMAL_MAX_UNITS as int
    } else {
        v
    }
}

/// The session state: a counter, three free-form text fields and a decimal
/// that is clamped to `[DECIMAL_MIN_UNITS, DECIMAL_MAX_UNITS]` on every write.
pub struct HelloState {
    counter: i32,
    message: String,
    gum: String,
    ice_shape: String,
    decimal: i64,
}

impl View for HelloState {
    type V = StateView;

    closed spec fn view(&self) -> StateView {
        StateView {
            counter: self.counter as int,
            message: self.message@,
            gum: self.gum@,
            ice_shape: self.ice_shape@,
            decimal: self.decimal as int,
        }
    }
}

impl HelloState {
    /// The decimal never leaves its closed range; the setter, not the caller,
    /// enforces the bound.
    #[verifier::type_invariant]
    spec fn wf(self) -> bool {
        DECIMAL_MIN_UNITS <= self.decimal <= DECIMAL_MAX_UNITS
    }

    /// A fresh record with the default value of every field.
    pub fn new() -> (r: HelloState)
        ensures
            r@ == initial_state(),
    {
        HelloState {
            counter: 0,
            message: String::from_str("Rust WASM is so Sigma!"),
            gum: String::from_str("Hubba Bubba"),
            ice_shape: String::from_str("Cube"),
            decimal: 0,
        }
    }

    /// Overwrites the counter with the given value; no other field changes.
    pub fn initialize(&mut self, initial_counter: i32)
        ensures
            final(self)@ == with_counter(old(self)@, initial_counter as int),
    {
        proof {
            use_type_invariant(&*self);
        }
        self.counter = initial_counter;
    }

    /// The current counter value.
    pub fn get_counter(&self) -> (r: i32)
        ensures
            r as int == self@.counter,
    {
        self.counter
    }

    /// Adds exactly 1 to the counter, wrapping around at the top of the `i32`
    /// range; no other field changes.
    pub fn increment_counter(&mut self)
        ensures
            final(self)@ == incremented(old(self)@),
    {
        proof {
            use_type_invariant(&*self);
        }
        if self.counter == i32::MAX {
            self.counter = i32::MIN;
        } else {
            self.counter = self.counter + 1;
        }
    }

    /// The current message.
    pub fn get_message(&self) -> (r: String)
        ensures
            r@ == self@.message,
    {
        self.message.clone()
    }

    /// Replaces the message unconditionally; no other field changes.
    pub fn set_message(&mut self, message: String)
        ensures
            final(self)@ == with_message(old(self)@, message@),
    {
        proof {
            use_type_invariant(&*self);
        }
        self.message = message;
    }

    /// The current gum.
    pub fn get_fave_gum(&self) -> (r: String)
        ensures
            r@ == self@.gum,
    {
        self.gum.clone()
    }

    /// Replaces the gum unconditionally; no other field changes.
    pub fn set_fave_gum(&mut self, gum: String)
        ensures
            final(self)@ == with_gum(old(self)@, gum@),
    {
        proof {
            use_type_invariant(&*self);
        }
        self.gum = gum;
    }

    /// The current favorite ice shape.
    pub fn get_fave_ice_shape(&self) -> (r: String)
        ensures
            r@ == self@.ice_shape,
    {
        self.ice_shape.clone()
    }

    /// Replaces the favorite ice shape unconditionally; no other field changes.
    pub fn set_fave_ice_shape(&mut self, shape: String)
        ensures
            final(self)@ == with_ice_shape(old(self)@, shape@),
    {
        proof {
            use_type_invariant(&*self);
        }
        self.ice_shape = shape;
    }

    /// The current decimal value, in ten-thousandths; always within the
    /// decimal range.
    pub fn get_decimal(&self) -> (r: i64)
        ensures
            r as int == self@.decimal,
            DECIMAL_MIN_UNITS <= r <= DECIMAL_MAX_UNITS,
    {
        proof {
            use_type_invariant(&*self);
        }
        self.decimal
    }

    /// Replaces the decimal with the given value constrained to the decimal
    /// range: an out-of-range value is replaced by the nearer bound. No other
    /// field changes.
    pub fn set_decimal(&mut self, value: i64)
        ensures
            final(self)@ == with_decimal(old(self)@, clamp_decimal(value as int)),
    {
        proof {
            use_type_invariant(&*self);
        }
        let clamped: i64 = if value < DECIMAL_MIN_UNITS {
            DECIMAL_MIN_UNITS
        } else if value > DECIMAL_MAX_UNITS {
            DECIMAL_MAX_UNITS
        } else {
            value
        };
        self.decimal = clamped;
    }
}

} // verus!
