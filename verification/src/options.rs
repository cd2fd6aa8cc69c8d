//! The option set: a chainable bit-set of file-access intents plus an
//! "uninitialized" sentinel, and its translation into host open-mode flags.

use vstd::prelude::*;

verus! {

const READ_BIT: u32 = 0x01;

const WRITE_BIT: u32 = 0x02;

const CREATE_BIT: u32 = 0x04;

const EXCLUSIVE_CREATE_BIT: u32 = 0x08;

const TRUNCATE_BIT: u32 = 0x10;

const APPEND_BIT: u32 = 0x20;

const UNINITIALIZED_BIT: u32 = 0x80;

/// The seven flags of an option set, read out of the bit-field as a
/// mathematical record.
pub struct OptionsView {
    pub read: bool,
    pub write: bool,
    pub create: bool,
    pub exclusive_create: bool,
    pub truncate: bool,
    pub append: bool,
    pub uninitialized: bool,
}

/// An immutable, chainable set of requested file-access intents.  A fresh
/// value carries only the uninitialized sentinel; each setter returns a new
/// value, so a set can be assembled by chained calls.
#[derive(Clone, Copy, Debug, PartialEq, Eq, Structural)]
pub struct FileOptions {
    bits: u32,
}

impl View for FileOptions {
    type V = OptionsView;

    closed spec fn view(&self) -> OptionsView {
        OptionsView {
            read: self.bits & READ_BIT != 0,
            write: self.bits & WRITE_BIT != 0,
            create: self.bits & CREATE_BIT != 0,
            exclusive_create: self.bits & EXCLUSIVE_CREATE_BIT != 0,
            truncate: self.bits & TRUNCATE_BIT != 0,
            append: self.bits & APPEND_BIT != 0,
            uninitialized: self.bits & UNINITIALIZED_BIT != 0,
        }
    }
}

/// The value of a freshly constructed option set: no intent requested, the
/// uninitialized sentinel raised.
pub open spec fn initial_options() -> OptionsView {
    OptionsView {
        read: false,
        write: false,
        create: false,
        exclusive_create: false,
        truncate: false,
        append: false,
        uninitialized: true,
    }
}

/// The host open-mode flags that an option set translates into: one boolean
/// per native mode, ready to hand to the host open call.
#[derive(Clone, Copy, Debug, PartialEq, Eq, Structural)]
pub struct OpenMode {
    pub read: bool,
    pub write: bool,
    pub create: bool,
    pub create_new: bool,
    pub truncate: bool,
    pub append: bool,
}

/// The host open-mode flags that an option set translates into, intent for
/// intent.
pub open spec fn mode_of(v: OptionsView) -> OpenMode {
    OpenMode {
        read: v.read,
        write: v.write,
        create: v.create,
        create_new: v.exclusive_create,
        truncate: v.truncate,
        append: v.append,
    }
}

/// The view-level effect of the bitwise-OR combination: a flag is set in the
/// result exactly when it is set in either operand.
pub open spec fn combined(a: OptionsView, b: OptionsView) -> OptionsView {
    OptionsView {
        read: a.read || b.read,
        write: a.write || b.write,
        create: a.create || b.create,
        exclusive_create: a.exclusive_create || b.exclusive_create,
        truncate: a.truncate || b.truncate,
        append: a.append || b.append,
        uninitialized: a.uninitialized || b.uninitialized,
    }
}

/// The view-level effect of requesting the read intent: the flag is raised,
/// the uninitialized sentinel is cleared, everything else is untouched.
pub open spec fn with_read(v: OptionsView) -> OptionsView {
    OptionsView { read: true, uninitialized: false, ..v }
}

/// The view-level effect of requesting the write intent.
pub open spec fn with_write(v: OptionsView) -> OptionsView {
    OptionsView { write: true, uninitialized: false, ..v }
}

/// The view-level effect of requesting the create intent.
pub open spec fn with_create(v: OptionsView) -> OptionsView {
    OptionsView { create: true, uninitialized: false, ..v }
}

/// The view-level effect of requesting the exclusive-create intent.
pub open spec fn with_exclusive_create(v: OptionsView) -> OptionsView {
    OptionsView { exclusive_create: true, uninitialized: false, ..v }
}

/// The view-level effect of requesting the truncate intent.
pub open spec fn with_truncate(v: OptionsView) -> OptionsView {
    OptionsView { truncate: true, uninitialized: false, ..v }
}

/// The view-level effect of requesting the append intent.
pub open spec fn with_append(v: OptionsView) -> OptionsView {
    OptionsView { append: true, uninitialized: false, ..v }
}

/// Every intent flag set in `a` is also set in `b`.
pub open spec fn intents_preserved(a: OptionsView, b: OptionsView) -> bool {
    &&& a.read ==> b.read
    &&& a.write ==> b.write
    &&& a.create ==> b.create
    &&& a.exclusive_create ==> b.exclusive_create
    &&& a.truncate ==> b.truncate
    &&& a.append ==> b.append
}

/// Setter law: every setter invoked with `set = true` clears the
/// uninitialized sentinel and raises its own flag, whatever the set held
/// before.  (Invoked with `set = false`, a setter returns its input
/// unchanged — that half stands in each setter's contract.)
pub proof fn lemma_setters_clear_uninitialized(v: OptionsView)
    ensures
        with_read(v).read && !with_read(v).uninitialized,
        with_write(v).write && !with_write(v).uninitialized,
        with_create(v).create && !with_create(v).uninitialized,
        with_exclusive_create(v).exclusive_create && !with_exclusive_create(v).uninitialized,
        with_truncate(v).truncate && !with_truncate(v).uninitialized,
        with_append(v).append && !with_append(v).uninitialized,
{
}

/// Monotonicity law: no setter clears an intent flag that is already set;
/// flags only accumulate under the builder calls.
pub proof fn lemma_setters_monotonic(v: OptionsView)
    ensures
        intents_preserved(v, with_read(v)),
        intents_preserved(v, with_write(v)),
        intents_preserved(v, with_create(v)),
        intents_preserved(v, with_exclusive_create(v)),
        intents_preserved(v, with_truncate(v)),
        intents_preserved(v, with_append(v)),
{
}

impl FileOptions {
    /// Returns the uninitialized sentinel value; intents are then requested
    /// through the chained setters.
    pub fn new() -> (r: FileOptions)
        ensures
            r@ == initial_options(),
    {
        proof {
            assert(0x80u32 & 0x01u32 == 0 && 0x80u32 & 0x02u32 == 0 && 0x80u32 & 0x04u32 == 0
                && 0x80u32 & 0x08u32 == 0 && 0x80u32 & 0x10u32 == 0 && 0x80u32 & 0x20u32 == 0
                && 0x80u32 & 0x80u32 != 0) by (bit_vector);
        }
        FileOptions { bits: UNINITIALIZED_BIT }
    }

    /// True once any setter has been invoked with `set = true`, that is,
    /// once the uninitialized sentinel has been cleared.
    pub fn is_initialized(&self) -> (r: bool)
        ensures
            r == !self@.uninitialized,
    {
        self.bits & UNINITIALIZED_BIT == 0
    }

    /// Requests the read intent.  `set = false` leaves the set unchanged:
    /// a flag, once raised, is never cleared through the setters.
    pub fn read(self, set: bool) -> (r: FileOptions)
        ensures
            set ==> r@ == with_read(self@),
            !set ==> r == self,
    {
        if set {
            let r = FileOptions { bits: (self.bits & !UNINITIALIZED_BIT) | READ_BIT };
            proof {
                let b = self.bits;
                let c = r.bits;
                assert(c & 0x01u32 != 0 && c & 0x80u32 == 0 && c & 0x02u32 == b & 0x02u32
                    && c & 0x04u32 == b & 0x04u32 && c & 0x08u32 == b & 0x08u32
                    && c & 0x10u32 == b & 0x10u32 && c & 0x20u32 == b & 0x20u32) by (bit_vector)
                    requires
                        c == (b & !0x80u32) | 0x01u32,
                ;
            }
            r
        } else {
            self
        }
    }

    /// Requests the write intent; `set = false` is a no-op.
    pub fn write(self, set: bool) -> (r: FileOptions)
        ensures
            set ==> r@ == with_write(self@),
            !set ==> r == self,
    {
        if set {
            let r = FileOptions { bits: (self.bits & !UNINITIALIZED_BIT) | WRITE_BIT };
            proof {
                let b = self.bits;
                let c = r.bits;
                assert(c & 0x02u32 != 0 && c & 0x80u32 == 0 && c & 0x01u32 == b & 0x01u32
                    && c & 0x04u32 == b & 0x04u32 && c & 0x08u32 == b & 0x08u32
                    && c & 0x10u32 == b & 0x10u32 && c & 0x20u32 == b & 0x20u32) by (bit_vector)
                    requires
                        c == (b & !0x80u32) | 0x02u32,
                ;
            }
            r
        } else {
            self
        }
    }

    /// Requests the create-if-missing intent; `set = false` is a no-op.
    pub fn create(self, set: bool) -> (r: FileOptions)
        ensures
            set ==> r@ == with_create(self@),
            !set ==> r == self,
    {
        if set {
            let r = FileOptions { bits: (self.bits & !UNINITIALIZED_BIT) | CREATE_BIT };
            proof {
                let b = self.bits;
                let c = r.bits;
                assert(c & 0x04u32 != 0 && c & 0x80u32 == 0 && c & 0x01u32 == b & 0x01u32
                    && c & 0x02u32 == b & 0x02u32 && c & 0x08u32 == b & 0x08u32
                    && c & 0x10u32 == b & 0x10u32 && c & 0x20u32 == b & 0x20u32) by (bit_vector)
                    requires
                        c == (b & !0x80u32) | 0x04u32,
                ;
            }
            r
        } else {
            self
        }
    }

    /// Requests the create-exclusively intent (fail if the file already
    /// exists); `set = false` is a no-op.
    pub fn exclusive_create(self, set: bool) -> (r: FileOptions)
        ensures
            set ==> r@ == with_exclusive_create(self@),
            !set ==> r == self,
    {
        if set {
            let r = FileOptions { bits: (self.bits & !UNINITIALIZED_BIT) | EXCLUSIVE_CREATE_BIT };
            proof {
                let b = self.bits;
                let c = r.bits;
                assert(c & 0x08u32 != 0 && c & 0x80u32 == 0 && c & 0x01u32 == b & 0x01u32
                    && c & 0x02u32 == b & 0x02u32 && c & 0x04u32 == b & 0x04u32
                    && c & 0x10u32 == b & 0x10u32 && c & 0x20u32 == b & 0x20u32) by (bit_vector)
                    requires
                        c == (b & !0x80u32) | 0x08u32,
                ;
            }
            r
        } else {
            self
        }
    }

    /// Requests the truncate-on-open intent; `set = false` is a no-op.
    pub fn truncate(self, set: bool) -> (r: FileOptions)
        ensures
            set ==> r@ == with_truncate(self@),
            !set ==> r == self,
    {
        if set {
            let r = FileOptions { bits: (self.bits & !UNINITIALIZED_BIT) | TRUNCATE_BIT };
            proof {
                let b = self.bits;
                let c = r.bits;
                assert(c & 0x10u32 != 0 && c & 0x80u32 == 0 && c & 0x01u32 == b & 0x01u32
                    && c & 0x02u32 == b & 0x02u32 && c & 0x04u32 == b & 0x04u32
                    && c & 0x08u32 == b & 0x08u32 && c & 0x20u32 == b & 0x20u32) by (bit_vector)
                    requires
                        c == (b & !0x80u32) | 0x10u32,
                ;
            }
            r
        } else {
            self
        }
    }

    /// Requests the append-on-write intent; `set = false` is a no-op.
    pub fn append(self, set: bool) -> (r: FileOptions)
        ensures
            set ==> r@ == with_append(self@),
            !set ==> r == self,
    {
        if set {
            let r = FileOptions { bits: (self.bits & !UNINITIALIZED_BIT) | APPEND_BIT };
            proof {
                let b = self.bits;
                let c = r.bits;
                assert(c & 0x20u32 != 0 && c & 0x80u32 == 0 && c & 0x01u32 == b & 0x01u32
                    && c & 0x02u32 == b & 0x02u32 && c & 0x04u32 == b & 0x04u32
                    && c & 0x08u32 == b & 0x08u32 && c & 0x10u32 == b & 0x10u32) by (bit_vector)
                    requires
                        c == (b & !0x80u32) | 0x20u32,
                ;
            }
            r
        } else {
            self
        }
    }

    /// Combines two option sets by bitwise OR: the idiomatic way to request
    /// several intents at once.  Like the intents, the uninitialized sentinel
    /// is set in the result when either operand carries it.
    pub fn combine(self, other: FileOptions) -> (r: FileOptions)
        ensures
            r@ == combined(self@, other@),
    {
        let r = FileOptions { bits: self.bits | other.bits };
        proof {
            let a = self.bits;
            let b = other.bits;
            let c = r.bits;
            assert((c & 0x01u32 != 0 <==> a & 0x01u32 != 0 || b & 0x01u32 != 0)
                && (c & 0x02u32 != 0 <==> a & 0x02u32 != 0 || b & 0x02u32 != 0)
                && (c & 0x04u32 != 0 <==> a & 0x04u32 != 0 || b & 0x04u32 != 0)
                && (c & 0x08u32 != 0 <==> a & 0x08u32 != 0 || b & 0x08u32 != 0)
                && (c & 0x10u32 != 0 <==> a & 0x10u32 != 0 || b & 0x10u32 != 0)
                && (c & 0x20u32 != 0 <==> a & 0x20u32 != 0 || b & 0x20u32 != 0)
                && (c & 0x80u32 != 0 <==> a & 0x80u32 != 0 || b & 0x80u32 != 0)) by (bit_vector)
                requires
                    c == a | b,
            ;
        }
        r
    }

    /// Translates the six access intents into the corresponding host
    /// open-mode flags, one for one.
    pub fn open_mode(&self) -> (m: OpenMode)
        ensures
            m == mode_of(self@),
    {
        OpenMode {
            read: self.bits & READ_BIT != 0,
            write: self.bits & WRITE_BIT != 0,
            create: self.bits & CREATE_BIT != 0,
            create_new: self.bits & EXCLUSIVE_CREATE_BIT != 0,
            truncate: self.bits & TRUNCATE_BIT != 0,
            append: self.bits & APPEND_BIT != 0,
        }
    }
}

} // verus!
