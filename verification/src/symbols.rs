use vstd::prelude::*;
use vstd::string::*;
use crate::host::{is_null, spec_is_null, Handle};

verus! {

/// Resolve symbols as they are first used.
pub const RTLD_LAZY: i32 = 1;

/// Make the library's symbols available to libraries loaded later.
pub const RTLD_GLOBAL: i32 = 8;

/// The path of the system library that holds the GL functions.
pub fn library_path() -> (p: &'static str)
    ensures
        p@ == "/System/Library/Frameworks/OpenGLES.framework/OpenGLES"@,
{
    "/System/Library/Frameworks/OpenGLES.framework/OpenGLES"
}

/// The mode that the library is opened in: both flags, and no other bit.
pub fn open_mode() -> (m: i32)
    ensures
        m == 9,
        m == RTLD_LAZY | RTLD_GLOBAL,
{
    assert(1i32 | 8i32 == 9i32) by (bit_vector);
    RTLD_LAZY | RTLD_GLOBAL
}

/// Whether a name can be the name of a symbol: it holds no NUL.
pub open spec fn is_symbol_name(name: Seq<char>) -> bool {
    forall|i: int| 0 <= i < name.len() ==> name[i] != '\0'
}

/// Tests whether a name can be the name of a symbol.
pub fn check_symbol_name(name: &str) -> (r: bool)
    ensures
        r == is_symbol_name(name@),
{
    let n: usize = name.unicode_len();
    let mut i: usize = 0;
    while i < n
        invariant
            0 <= i <= n,
            n == name@.len(),
            forall|k: int| 0 <= k < i ==> name@[k] != '\0',
        decreases n - i,
    {
        if name.get_char(i) == '\0' {
            return false;
        }
        i += 1;
    }
    true
}

/// The handle of the GL library, kept from the first time it was opened to
/// the end of the process.
#[derive(Clone, Copy, Debug)]
pub struct LibraryCache {
    handle: Handle,
}

impl LibraryCache {
    /// The handle that is kept; null while the library has not been opened.
    pub closed spec fn spec_handle(&self) -> Handle {
        self.handle
    }

    /// A cache that holds nothing.
    pub fn new() -> (c: Self)
        ensures
            spec_is_null(c.spec_handle()),
    {
        LibraryCache { handle: 0 }
    }

    /// The handle that is kept; null while the library has not been opened.
    pub fn handle(&self) -> (h: Handle)
        ensures
            h == self.spec_handle(),
    {
        self.handle
    }

    /// Whether the driver has to open the library before a lookup.
    pub fn needs_open(&self) -> (r: bool)
        ensures
            r == spec_is_null(self.spec_handle()),
    {
        is_null(self.handle)
    }

    /// Takes the handle that the host gave for the library. The first
    /// handle that is not null is kept; a later one changes nothing.
    pub fn opened(&mut self, handle: Handle)
        ensures
            final(self).spec_handle() == if spec_is_null(old(self).spec_handle()) {
                handle
            } else {
                old(self).spec_handle()
            },
    {
        if is_null(self.handle) {
            self.handle = handle;
        }
    }
}

/// A lookup that the driver makes on the host: the symbol of this name in
/// the library with this handle.
#[derive(Clone, Copy, Debug)]
pub struct SymbolQuery<'a> {
    pub library: Handle,
    pub name: &'a str,
}

} // verus!
