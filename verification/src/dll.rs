//! Export tables of libraries loaded by the kernel (system call 68.19), and the console
//! library found through one.
use vstd::prelude::*;

verus! {

/// One export: the name of a symbol and its address.
#[derive(Debug, Clone, PartialEq, Eq)]
pub struct DLLEntry {
    pub name: Vec<u8>,
    pub function_addr: usize,
}

impl DLLEntry {
    /// The symbol's name.
    pub fn name(&self) -> (n: &[u8])
        ensures
            n@ == self.name@,
    {
        self.name.as_slice()
    }
}

/// The exports of a library, in table order, up to the entry whose name is null.
#[derive(Debug, Clone, PartialEq, Eq)]
pub struct DLLTable {
    pub entries: Vec<DLLEntry>,
}

/// Walks a table's exports in order.
#[derive(Debug)]
pub struct DLLTableIterator<'dll> {
    pub dll: &'dll DLLTable,
    pub position: usize,
}

/// The index of the first export named `name`, if there is one.
pub open spec fn first_named(entries: Seq<DLLEntry>, name: Seq<u8>) -> Option<int> {
    if exists|i: int| 0 <= i < entries.len() && (#[trigger] entries[i]).name@ == name {
        Some(choose|i: int| 0 <= i < entries.len() && entries[i].name@ == name
            && forall|j: int| 0 <= j < i ==> (#[trigger] entries[j]).name@ != name)
    } else {
        None
    }
}

fn same_bytes(a: &[u8], b: &[u8]) -> (r: bool)
    ensures
        r == (a@ == b@),
{
    if a.len() != b.len() {
        return false;
    }
    let mut i: usize = 0;
    while i < a.len()
        invariant
            i <= a@.len(),
            a@.len() == b@.len(),
            forall|k: int| 0 <= k < i ==> a@[k] == b@[k],
        decreases a@.len() - i,
    {
        if a[i] != b[i] {
            return false;
        }
        i = i + 1;
    }
    assert(a@ =~= b@);
    true
}

impl DLLTable {
    /// An iterator from the first export.
    pub fn iter(&self) -> (it: DLLTableIterator<'_>)
        ensures
            it.dll == self,
            it.position == 0,
    {
        DLLTableIterator { dll: self, position: 0 }
    }

    /// The first export named `name`.
    pub fn find(&self, name: &[u8]) -> (r: Option<&DLLEntry>)
        ensures
            match first_named(self.entries@, name@) {
                Some(i) => r == Some(&self.entries@[i]),
                None => r.is_none(),
            },
    {
        let mut i: usize = 0;
        while i < self.entries.len()
            invariant
                i <= self.entries@.len(),
                forall|j: int| 0 <= j < i ==> (#[trigger] self.entries@[j]).name@ != name@,
            decreases self.entries@.len() - i,
        {
            if same_bytes(self.entries[i].name.as_slice(), name) {
                proof {
                    let w = choose|k: int| 0 <= k < self.entries@.len() && self.entries@[k].name@ == name@
                        && forall|j: int| 0 <= j < k ==> (#[trigger] self.entries@[j]).name@ != name@;
                    assert(self.entries@[i as int].name@ == name@);
                    if w < i {
                        assert(self.entries@[w].name@ != name@);
                    } else if w > i {
                        assert(self.entries@[i as int].name@ != name@);
                    }
                }
                return Some(&self.entries[i]);
            }
            i = i + 1;
        }
        None
    }
}

impl<'dll> DLLTableIterator<'dll> {
    /// The next export, if any remain.
    pub fn next(&mut self) -> (r: Option<&'dll DLLEntry>)
        ensures
            final(self).dll == old(self).dll,
            old(self).position < old(self).dll.entries@.len() ==> r == Some(&old(self).dll.entries@[old(self).position as int])
                && final(self).position == old(self).position + 1,
            old(self).position >= old(self).dll.entries@.len() ==> r.is_none()
                && final(self).position == old(self).position,
    {
        if self.position < self.dll.entries.len() {
            let e = &self.dll.entries[self.position];
            self.position = self.position + 1;
            Some(e)
        } else {
            None
        }
    }
}

/// The three functions of the console library: their addresses.
#[derive(Debug, Clone, Copy, PartialEq, Eq, Structural)]
pub struct ConsoleLibrary {
    pub con_init: usize,
    pub con_write_string: usize,
    pub con_exit: usize,
}

pub open spec fn con_init_name() -> Seq<u8> {
    seq![99u8, 111, 110, 95, 105, 110, 105, 116]
}

pub open spec fn con_write_string_name() -> Seq<u8> {
    seq![99u8, 111, 110, 95, 119, 114, 105, 116, 101, 95, 115, 116, 114, 105, 110, 103]
}

pub open spec fn con_exit_name() -> Seq<u8> {
    seq![99u8, 111, 110, 95, 101, 120, 105, 116]
}

impl ConsoleLibrary {
    /// The console functions of an export table: each the first export of its name
    /// ("con_init", "con_write_string", "con_exit"); `None` when one is missing.
    pub fn init_from_lib(lib: &DLLTable) -> (r: Option<ConsoleLibrary>)
        ensures
            r.is_some() <==> (first_named(lib.entries@, con_init_name()).is_some()
                && first_named(lib.entries@, con_write_string_name()).is_some()
                && first_named(lib.entries@, con_exit_name()).is_some()),
            r.is_some() ==> {
                &&& r.unwrap().con_init == lib.entries@[first_named(lib.entries@, con_init_name()).unwrap()].function_addr
                &&& r.unwrap().con_write_string == lib.entries@[first_named(lib.entries@, con_write_string_name()).unwrap()].function_addr
                &&& r.unwrap().con_exit == lib.entries@[first_named(lib.entries@, con_exit_name()).unwrap()].function_addr
            },
    {
        let init_name: [u8; 8] = [99, 111, 110, 95, 105, 110, 105, 116];
        let write_name: [u8; 16] = [99, 111, 110, 95, 119, 114, 105, 116, 101, 95, 115, 116, 114, 105, 110, 103];
        let exit_name: [u8; 8] = [99, 111, 110, 95, 101, 120, 105, 116];
        assert(init_name@ =~= con_init_name());
        assert(write_name@ =~= con_write_string_name());
        assert(exit_name@ =~= con_exit_name());
        let con_init = match lib.find(&init_name) {
            Some(e) => e.function_addr,
            None => { return None; },
        };
        let con_write_string = match lib.find(&write_name) {
            Some(e) => e.function_addr,
            None => { return None; },
        };
        let con_exit = match lib.find(&exit_name) {
            Some(e) => e.function_addr,
            None => { return None; },
        };
        Some(ConsoleLibrary { con_init, con_write_string, con_exit })
    }
}

/// The table that the "load library" reply describes: 0 means the library could not be
/// loaded; otherwise the reply is the table's address, whose exports are then read.
pub fn load_dll_reply(value: usize) -> (r: Option<usize>)
    ensures
        value == 0 ==> r.is_none(),
        value != 0 ==> r == Some(value),
{
    if value == 0 { None } else { Some(value) }
}

} // verus!
