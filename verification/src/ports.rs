//! The ports that a compose file's executables publish on, and which of them
//! each linked input subscribes to.

use vstd::prelude::*;
use crate::compose::{ComposeFile, attribute_exe, attribute_port, attribute_id, attribute_id_to_index, lemma_attribute_id_round_trip};
use crate::model::Executable;

verus! {

/// The port number just before the first one handed out.
pub const PORT_BASE: i32 = 5555;

/// How many outputs the first `count` executables have together.
pub open spec fn outputs_before(executables: Seq<Executable>, count: int) -> int
    decreases count,
{
    if count <= 0 {
        0
    } else {
        outputs_before(executables, count - 1) + executables[count - 1].outputs@.len()
    }
}

/// How many outputs the executables have together.
pub open spec fn total_outputs(executables: Seq<Executable>) -> int {
    outputs_before(executables, executables.len() as int)
}

/// The port of output `output` of executable `exe`: the outputs of all
/// executables, in order, take the ports after the base one by one.
pub open spec fn output_port(executables: Seq<Executable>, exe: int, output: int) -> int {
    PORT_BASE + 1 + outputs_before(executables, exe) + output
}

/// The outputs of the earlier executables fit before those of a later one.
pub proof fn lemma_outputs_before_grows(executables: Seq<Executable>, i: int, j: int)
    requires
        0 <= i <= j <= executables.len(),
    ensures
        outputs_before(executables, i) <= outputs_before(executables, j),
        i < j ==> outputs_before(executables, i) + executables[i].outputs@.len() <= outputs_before(executables, j),
    decreases j - i,
{
    if i < j {
        lemma_outputs_before_grows(executables, i, j - 1);
        lemma_outputs_before_grows(executables, i + 1, j);
    }
}

/// No two outputs share a port: the port of an earlier output, in file order,
/// is below that of a later one.
pub proof fn lemma_output_ports_distinct(executables: Seq<Executable>, i1: int, j1: int, i2: int, j2: int)
    requires
        0 <= i1 < executables.len(),
        0 <= j1 < executables[i1].outputs@.len(),
        0 <= i2 < executables.len(),
        0 <= j2 < executables[i2].outputs@.len(),
        i1 < i2 || (i1 == i2 && j1 < j2),
    ensures
        output_port(executables, i1, j1) < output_port(executables, i2, j2),
{
    if i1 < i2 {
        lemma_outputs_before_grows(executables, i1, i2);
    }
}

/// The last output of `outputs[..count]` named `name`, or -1 where there is none.
pub open spec fn last_named(outputs: Seq<String>, name: Seq<char>, count: int) -> int
    decreases count,
{
    if count <= 0 {
        -1
    } else if outputs[count - 1]@ == name {
        count - 1
    } else {
        last_named(outputs, name, count - 1)
    }
}

/// The port that a subscriber of output `output` of executable `exe` is given:
/// ports are looked up by output name, and where two outputs share a name the
/// later one's port wins.
pub open spec fn subscribed_port(executables: Seq<Executable>, exe: int, output: int) -> int {
    let outputs = executables[exe].outputs@;
    output_port(executables, exe, last_named(outputs, outputs[output]@, outputs.len() as int))
}

/// The output whose port a subscriber is given has the name of the output it
/// subscribed to, and is that output or a later one.
pub proof fn lemma_subscribed_port_names(executables: Seq<Executable>, exe: int, output: int)
    requires
        0 <= exe < executables.len(),
        0 <= output < executables[exe].outputs@.len(),
    ensures
        ({
            let outputs = executables[exe].outputs@;
            let k = last_named(outputs, outputs[output]@, outputs.len() as int);
            &&& output <= k < outputs.len()
            &&& outputs[k]@ == outputs[output]@
            &&& subscribed_port(executables, exe, output) == output_port(executables, exe, k)
        }),
{
    let outputs = executables[exe].outputs@;
    lemma_last_named(outputs, outputs[output]@, outputs.len() as int, output);
}

/// The search for a name from the back finds it at or after any index that holds it.
pub proof fn lemma_last_named(outputs: Seq<String>, name: Seq<char>, count: int, holder: int)
    requires
        0 <= holder < count <= outputs.len(),
        outputs[holder]@ == name,
    ensures
        holder <= last_named(outputs, name, count) < count,
        outputs[last_named(outputs, name, count)]@ == name,
    decreases count,
{
    if outputs[count - 1]@ != name {
        lemma_last_named(outputs, name, count - 1, holder);
    }
}

/// A link joins an existing output (its first attribute, read as an output) to
/// an existing input (its second attribute, read as an input).
pub open spec fn link_in_range(executables: Seq<Executable>, link: (usize, usize)) -> bool {
    &&& link.0 >= 100
    &&& link.1 >= 100
    &&& 0 <= attribute_exe(link.0 as int) < executables.len()
    &&& attribute_port(link.0 as int) < executables[attribute_exe(link.0 as int)].outputs@.len()
    &&& 0 <= attribute_exe(link.1 as int) < executables.len()
    &&& attribute_port(link.1 as int) < executables[attribute_exe(link.1 as int)].inputs@.len()
}

/// A link is in range exactly when its first id reads as an existing output
/// and its second as an existing input.
pub proof fn lemma_link_in_range_reads_ports(executables: Seq<Executable>, link: (usize, usize))
    ensures
        link_in_range(executables, link) <==> (link.0 >= 100 && link.1 >= 100 && ({
            let (e1, p1) = (attribute_exe(link.0 as int), attribute_port(link.0 as int));
            let (e2, p2) = (attribute_exe(link.1 as int), attribute_port(link.1 as int));
            &&& 0 <= e1 < executables.len() && 0 <= p1 < executables[e1].outputs@.len()
            &&& 0 <= e2 < executables.len() && 0 <= p2 < executables[e2].inputs@.len()
        })),
{
}

/// Any id of an existing output, linked to any id of an existing input, makes
/// a link in range, whichever of the two executables comes first in the file.
pub proof fn lemma_link_between_ports_in_range(
    executables: Seq<Executable>,
    server: nat,
    output: nat,
    client: nat,
    input: nat,
    start: usize,
    end: usize,
)
    requires
        server < executables.len(),
        output < executables[server as int].outputs@.len(),
        output < 50,
        client < executables.len(),
        input < executables[client as int].inputs@.len(),
        input < 50,
        start == attribute_id(server as int, output as int) || start == attribute_id(server as int, output as int) + 1,
        end == attribute_id(client as int, input as int) || end == attribute_id(client as int, input as int) + 1,
    ensures
        link_in_range(executables, (start, end)),
{
    lemma_attribute_id_round_trip(server, output);
    lemma_attribute_id_round_trip(client, input);
}

/// A compose file whose every link joins an output of some executable to an
/// input of some executable, in either order of the two in the file, has all
/// its links in range.
pub proof fn lemma_links_between_ports_in_range(compose: ComposeFile)
    requires
        forall|k: int| 0 <= k < compose.links@.len() ==> exists|server: nat, output: nat, client: nat, input: nat| {
            &&& server < compose.executables@.len()
            &&& output < compose.executables@[server as int].outputs@.len() && output < 50
            &&& client < compose.executables@.len()
            &&& input < compose.executables@[client as int].inputs@.len() && input < 50
            &&& #[trigger] compose.links@[k] == (
                attribute_id(server as int, output as int) as usize,
                attribute_id(client as int, input as int) as usize,
            )
            &&& attribute_id(server as int, output as int) <= usize::MAX
            &&& attribute_id(client as int, input as int) <= usize::MAX
        },
    ensures
        links_in_range(compose),
{
    assert forall|k: int| 0 <= k < compose.links@.len() implies link_in_range(compose.executables@, #[trigger] compose.links@[k]) by {
        let (server, output, client, input) = choose|server: nat, output: nat, client: nat, input: nat| {
            &&& server < compose.executables@.len()
            &&& output < compose.executables@[server as int].outputs@.len() && output < 50
            &&& client < compose.executables@.len()
            &&& input < compose.executables@[client as int].inputs@.len() && input < 50
            &&& #[trigger] compose.links@[k] == (
                attribute_id(server as int, output as int) as usize,
                attribute_id(client as int, input as int) as usize,
            )
            &&& attribute_id(server as int, output as int) <= usize::MAX
            &&& attribute_id(client as int, input as int) <= usize::MAX
        };
        lemma_link_between_ports_in_range(
            compose.executables@,
            server,
            output,
            client,
            input,
            compose.links@[k].0,
            compose.links@[k].1,
        );
    }
}

/// Every link of the compose file is in range.
pub open spec fn links_in_range(compose: ComposeFile) -> bool {
    forall|k: int| 0 <= k < compose.links@.len() ==> link_in_range(compose.executables@, #[trigger] compose.links@[k])
}

/// An input that subscribes to an output, and the port it is given.
#[derive(Debug, Clone, Copy, PartialEq, Eq)]
pub struct Subscription {
    pub server: usize,
    pub server_output: usize,
    pub client: usize,
    pub client_input: usize,
    pub port: i32,
}

/// The subscription that a link in range stands for.
pub open spec fn link_subscription(executables: Seq<Executable>, link: (usize, usize)) -> Subscription {
    let server = attribute_exe(link.0 as int);
    let server_output = attribute_port(link.0 as int);
    Subscription {
        server: server as usize,
        server_output: server_output as usize,
        client: attribute_exe(link.1 as int) as usize,
        client_input: attribute_port(link.1 as int) as usize,
        port: subscribed_port(executables, server, server_output) as i32,
    }
}

impl ComposeFile {
    /// Whether every link joins an existing output to an existing input.
    pub fn links_valid(&self) -> (r: bool)
        ensures
            r == links_in_range(*self),
    {
        let mut k: usize = 0;
        while k < self.links.len()
            invariant
                k <= self.links@.len(),
                forall|m: int| 0 <= m < k ==> link_in_range(self.executables@, #[trigger] self.links@[m]),
            decreases self.links.len() - k,
        {
            let (start, end) = self.links[k];
            if start < 100 || end < 100 {
                return false;
            }
            let (si, soi) = attribute_id_to_index(start);
            let (ci, cii) = attribute_id_to_index(end);
            if si >= self.executables.len() || soi >= self.executables[si].outputs.len()
                || ci >= self.executables.len() || cii >= self.executables[ci].inputs.len() {
                return false;
            }
            k = k + 1;
        }
        true
    }

    /// The port of each output of each executable, in the order of the file.
    pub fn output_ports(&self) -> (ports: Vec<Vec<i32>>)
        requires
            PORT_BASE + total_outputs(self.executables@) <= i32::MAX,
        ensures
            ports@.len() == self.executables@.len(),
            forall|i: int| 0 <= i < ports@.len() ==> (#[trigger] ports@[i])@.len() == self.executables@[i].outputs@.len(),
            forall|i: int, j: int| 0 <= i < ports@.len() && 0 <= j < ports@[i]@.len()
                ==> ports@[i]@[j] == output_port(self.executables@, i, j),
    {
        let ghost exes = self.executables@;
        let mut ports: Vec<Vec<i32>> = Vec::new();
        let mut next: i32 = PORT_BASE;
        let mut i: usize = 0;
        while i < self.executables.len()
            invariant
                exes == self.executables@,
                PORT_BASE + total_outputs(exes) <= i32::MAX,
                i <= exes.len(),
                ports@.len() == i,
                next == PORT_BASE + outputs_before(exes, i as int),
                forall|a: int| 0 <= a < i ==> (#[trigger] ports@[a])@.len() == exes[a].outputs@.len(),
                forall|a: int, b: int| 0 <= a < i && 0 <= b < ports@[a]@.len()
                    ==> ports@[a]@[b] == output_port(exes, a, b),
            decreases exes.len() - i,
        {
            proof {
                lemma_outputs_before_grows(exes, i as int, exes.len() as int);
            }
            let outputs = &self.executables[i].outputs;
            let mut row: Vec<i32> = Vec::new();
            let mut j: usize = 0;
            while j < outputs.len()
                invariant
                    exes == self.executables@,
                    i < exes.len(),
                    *outputs == exes[i as int].outputs,
                    PORT_BASE + outputs_before(exes, i as int) + outputs@.len() <= i32::MAX,
                    j <= outputs@.len(),
                    row@.len() == j,
                    next == PORT_BASE + outputs_before(exes, i as int) + j,
                    forall|b: int| 0 <= b < j ==> row@[b] == output_port(exes, i as int, b),
                decreases outputs.len() - j,
            {
                next = next + 1;
                row.push(next);
                j = j + 1;
            }
            ports.push(row);
            i = i + 1;
        }
        ports
    }

    /// For each link, in order, the subscription it stands for.
    pub fn subscriptions(&self) -> (subs: Vec<Subscription>)
        requires
            PORT_BASE + total_outputs(self.executables@) <= i32::MAX,
            links_in_range(*self),
        ensures
            subs@.len() == self.links@.len(),
            forall|k: int| 0 <= k < subs@.len() ==> subs@[k] == link_subscription(self.executables@, #[trigger] self.links@[k]),
    {
        let ghost exes = self.executables@;
        let ports = self.output_ports();
        let mut subs: Vec<Subscription> = Vec::new();
        let mut k: usize = 0;
        while k < self.links.len()
            invariant
                exes == self.executables@,
                links_in_range(*self),
                ports@.len() == exes.len(),
                forall|i: int| 0 <= i < ports@.len() ==> (#[trigger] ports@[i])@.len() == exes[i].outputs@.len(),
                forall|i: int, j: int| 0 <= i < ports@.len() && 0 <= j < ports@[i]@.len()
                    ==> ports@[i]@[j] == output_port(exes, i, j),
                k <= self.links@.len(),
                subs@.len() == k,
                forall|m: int| 0 <= m < k ==> subs@[m] == link_subscription(exes, #[trigger] self.links@[m]),
            decreases self.links.len() - k,
        {
            let (start, end) = self.links[k];
            proof {
                assert(link_in_range(exes, self.links@[k as int]));
            }
            let (si, soi) = attribute_id_to_index(start);
            let (ci, cii) = attribute_id_to_index(end);
            let outputs = &self.executables[si].outputs;
            let name = &outputs[soi];
            let mut last: usize = outputs.len();
            let mut found = false;
            while !found
                invariant
                    *outputs == exes[si as int].outputs,
                    soi < outputs@.len(),
                    *name == outputs@[soi as int],
                    soi < last <= outputs@.len() || found,
                    found ==> last < outputs@.len() && last == last_named(outputs@, name@, outputs@.len() as int),
                    !found ==> last_named(outputs@, name@, outputs@.len() as int) == last_named(outputs@, name@, last as int),
                decreases last + (if found { 0int } else { 1int }),
            {
                if outputs[last - 1] == *name {
                    found = true;
                    last = last - 1;
                } else {
                    last = last - 1;
                }
            }
            let port = ports[si][last];
            subs.push(Subscription { server: si, server_output: soi, client: ci, client_input: cii, port });
            k = k + 1;
        }
        subs
    }
}

} // verus!
