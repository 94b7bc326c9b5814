//! The compose file: its executables, the links between their ports, and the
//! numbering of the ports as node attributes.

use vstd::prelude::*;
use crate::model::Executable;

verus! {

/// A cluster as a compose file describes it: the executables, and the links
/// that each join an output attribute of one to an input attribute of another.
#[derive(Debug, Clone, PartialEq)]
pub struct ComposeFile {
    pub version: String,
    pub conda_path: String,
    pub links: Vec<(usize, usize)>,
    pub executables: Vec<Executable>,
}

/// The conda program that a compose file uses when it names none: `conda`.
pub fn conda_path_default() -> (path: String)
    ensures
        path@ == "conda"@,
{
    "conda".to_owned()
}

/// The executable that an attribute id belongs to.
pub open spec fn attribute_exe(id: int) -> int {
    id / 100 - 1
}

/// The port that an attribute id stands for, among the inputs or the outputs of its executable.
pub open spec fn attribute_port(id: int) -> int {
    id % 100 / 2
}

/// The attribute id of a port: the hundreds count the executables from one,
/// and each port takes two ids.
pub open spec fn attribute_id(exe_index: int, port_index: int) -> int {
    (exe_index + 1) * 100 + port_index * 2
}

/// The executable and port indices of an attribute id.
pub fn attribute_id_to_index(id: usize) -> (r: (usize, usize))
    requires
        id >= 100,
    ensures
        r.0 == attribute_exe(id as int),
        r.1 == attribute_port(id as int),
{
    (id / 100 - 1, id % 100 / 2)
}

/// The attribute id of port `port_index` of executable `exe_index`.
pub fn index_to_attribute_id(exe_index: usize, port_index: usize) -> (id: usize)
    requires
        attribute_id(exe_index as int, port_index as int) <= usize::MAX,
    ensures
        id == attribute_id(exe_index as int, port_index as int),
{
    (exe_index + 1) * 100 + port_index * 2
}

/// An attribute id names a port that exists: an input where the id is odd, an
/// output where it is even.
pub open spec fn attribute_in_range(executables: Seq<Executable>, id: int) -> bool {
    &&& id >= 100
    &&& 0 <= attribute_exe(id) < executables.len()
    &&& if id % 2 == 1 {
        attribute_port(id) < executables[attribute_exe(id)].inputs@.len()
    } else {
        attribute_port(id) < executables[attribute_exe(id)].outputs@.len()
    }
}

impl ComposeFile {
    /// The executable an attribute id belongs to, and the name of its port: an
    /// input where the id is odd, an output where it is even. (The editor's node
    /// view gives inputs the even ids and outputs the odd ones, so an id from
    /// there names the port of the other direction.)
    pub fn attribute_id_to_obj(&self, id: usize) -> (r: (&Executable, &str))
        requires
            attribute_in_range(self.executables@, id as int),
        ensures
            *r.0 == self.executables@[attribute_exe(id as int)],
            id % 2 == 1 ==> r.1@ == self.executables@[attribute_exe(id as int)].inputs@[attribute_port(id as int)]@,
            id % 2 == 0 ==> r.1@ == self.executables@[attribute_exe(id as int)].outputs@[attribute_port(id as int)]@,
    {
        let exe = &self.executables[id / 100 - 1];
        if id % 2 == 1 {
            (exe, exe.inputs[id % 100 / 2].as_str())
        } else {
            (exe, exe.outputs[id % 100 / 2].as_str())
        }
    }
}

/// A port index below fifty keeps to the two ids it is given: both lead back
/// to the executable and the port, the even one first.
pub proof fn lemma_attribute_id_round_trip(exe_index: nat, port_index: nat)
    requires
        port_index < 50,
    ensures
        attribute_id(exe_index as int, port_index as int) % 2 == 0,
        attribute_exe(attribute_id(exe_index as int, port_index as int)) == exe_index,
        attribute_port(attribute_id(exe_index as int, port_index as int)) == port_index,
        attribute_exe(attribute_id(exe_index as int, port_index as int) + 1) == exe_index,
        attribute_port(attribute_id(exe_index as int, port_index as int) + 1) == port_index,
{
    let id = attribute_id(exe_index as int, port_index as int);
    assert(id == (exe_index + 1) * 100 + port_index * 2);
    assert(id / 100 == exe_index + 1) by {
        vstd::arithmetic::div_mod::lemma_fundamental_div_mod_converse(id, 100, exe_index + 1int, port_index * 2int);
    }
    assert(id % 100 == port_index * 2) by {
        vstd::arithmetic::div_mod::lemma_fundamental_div_mod_converse(id, 100, exe_index + 1int, port_index * 2int);
    }
    assert((id + 1) / 100 == exe_index + 1) by {
        vstd::arithmetic::div_mod::lemma_fundamental_div_mod_converse(id + 1, 100, exe_index + 1int, port_index * 2int + 1);
    }
    assert((id + 1) % 100 == port_index * 2 + 1) by {
        vstd::arithmetic::div_mod::lemma_fundamental_div_mod_converse(id + 1, 100, exe_index + 1int, port_index * 2int + 1);
    }
}

/// From an attribute id, the executable and port indices give the id back,
/// rounded down to even.
pub proof fn lemma_attribute_index_round_trip(id: nat)
    requires
        id >= 100,
    ensures
        attribute_id(attribute_exe(id as int), attribute_port(id as int)) == id - id % 2,
{
    let q = id / 100;
    let r = id % 100;
    assert(id == q * 100 + r) by {
        vstd::arithmetic::div_mod::lemma_fundamental_div_mod(id as int, 100);
    }
    assert(r == (r / 2) * 2 + r % 2) by {
        vstd::arithmetic::div_mod::lemma_fundamental_div_mod(r as int, 2);
    }
    assert(r % 2 == id % 2) by {
        vstd::arithmetic::div_mod::lemma_fundamental_div_mod_converse(
            id as int,
            2,
            (q * 50 + r / 2) as int,
            (r % 2) as int,
        );
    }
}

} // verus!
