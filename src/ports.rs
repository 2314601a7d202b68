//! Names of the audio ports of a node on the host audio server.
use vstd::prelude::*;
use vstd::string::*;

verus! {

/// The character of a decimal digit.
pub open spec fn digit_char(d: nat) -> char {
    if d == 0 {
        '0'
    } else if d == 1 {
        '1'
    } else if d == 2 {
        '2'
    } else if d == 3 {
        '3'
    } else if d == 4 {
        '4'
    } else if d == 5 {
        '5'
    } else if d == 6 {
        '6'
    } else if d == 7 {
        '7'
    } else if d == 8 {
        '8'
    } else {
        '9'
    }
}

/// The decimal digits of `n`, most significant first, without leading zeros.
pub open spec fn decimal(n: nat) -> Seq<char>
    decreases n,
{
    if n < 10 {
        seq![digit_char(n)]
    } else {
        decimal(n / 10).push(digit_char(n % 10))
    }
}

/// `i` written in decimal, with a leading `-` when it is negative.
pub open spec fn signed_decimal(i: int) -> Seq<char> {
    if i < 0 {
        seq!['-'] + decimal((-i) as nat)
    } else {
        decimal(i as nat)
    }
}

/// The name of a port within its node: `{basename}_{index}`.
pub open spec fn spec_port_name(basename: Seq<char>, index: int) -> Seq<char> {
    basename + seq!['_'] + signed_decimal(index)
}

/// The fully qualified name of a port: `{node}:{basename}_{index}`.
pub open spec fn spec_qualified_port_name(node: Seq<char>, basename: Seq<char>, index: int) -> Seq<char> {
    node + seq![':'] + spec_port_name(basename, index)
}

fn digit_str(d: u64) -> (r: &'static str)
    requires
        d < 10,
    ensures
        r@ == seq![digit_char(d as nat)],
{
    proof {
        reveal_strlit("0");
        reveal_strlit("1");
        reveal_strlit("2");
        reveal_strlit("3");
        reveal_strlit("4");
        reveal_strlit("5");
        reveal_strlit("6");
        reveal_strlit("7");
        reveal_strlit("8");
        reveal_strlit("9");
    }
    if d == 0 {
        "0"
    } else if d == 1 {
        "1"
    } else if d == 2 {
        "2"
    } else if d == 3 {
        "3"
    } else if d == 4 {
        "4"
    } else if d == 5 {
        "5"
    } else if d == 6 {
        "6"
    } else if d == 7 {
        "7"
    } else if d == 8 {
        "8"
    } else {
        "9"
    }
}

fn append_decimal(s: &mut String, n: u64)
    ensures
        final(s)@ == old(s)@ + decimal(n as nat),
    decreases n,
{
    if n >= 10 {
        append_decimal(s, n / 10);
        s.append(digit_str(n % 10));
        proof {
            assert(old(s)@ + decimal(n as nat) =~= old(s)@ + decimal((n / 10) as nat) + seq![
                digit_char((n % 10) as nat),
            ]);
        }
    } else {
        s.append(digit_str(n));
    }
}

fn append_signed_decimal(s: &mut String, i: i64)
    ensures
        final(s)@ == old(s)@ + signed_decimal(i as int),
{
    if i < 0 {
        proof {
            reveal_strlit("-");
        }
        s.append("-");
        let magnitude: u64 = (-(i as i128)) as u64;
        append_decimal(s, magnitude);
        assert(final(s)@ =~= old(s)@ + signed_decimal(i as int));
    } else {
        append_decimal(s, i as u64);
    }
}

/// The name of a port within its node, `{port_basename}_{port_index}`
/// (`"out_2"`).
pub fn port_name(port_basename: &str, port_index: i64) -> (r: String)
    ensures
        r@ == spec_port_name(port_basename@, port_index as int),
{
    let mut s = String::from_str(port_basename);
    proof {
        reveal_strlit("_");
    }
    s.append("_");
    append_signed_decimal(&mut s, port_index);
    assert(s@ =~= spec_port_name(port_basename@, port_index as int));
    s
}

/// The fully qualified name of a port, `{node_name}:{port_basename}_{port_index}`
/// (`"gen:out_2"`).
pub fn qualified_port_name(node_name: &str, port_basename: &str, port_index: i64) -> (r: String)
    ensures
        r@ == spec_qualified_port_name(node_name@, port_basename@, port_index as int),
{
    let mut s = String::from_str(node_name);
    proof {
        reveal_strlit(":");
    }
    s.append(":");
    let p = port_name(port_basename, port_index);
    s.append(p.as_str());
    assert(s@ =~= spec_qualified_port_name(node_name@, port_basename@, port_index as int));
    s
}

/// The identity of a node's ports: the node's client name and the basename
/// its two ports share.
pub struct NodePorts {
    pub node_name: String,
    pub port_basename: String,
}

impl NodePorts {
    pub fn new(node_name: &str, port_basename: &str) -> (r: NodePorts)
        ensures
            r.node_name@ == node_name@,
            r.port_basename@ == port_basename@,
    {
        NodePorts {
            node_name: String::from_str(node_name),
            port_basename: String::from_str(port_basename),
        }
    }

    /// The fully qualified name of port `port_index` of the node.
    pub fn client_port_name(&self, port_index: i64) -> (r: String)
        ensures
            r@ == spec_qualified_port_name(self.node_name@, self.port_basename@, port_index as int),
    {
        qualified_port_name(self.node_name.as_str(), self.port_basename.as_str(), port_index)
    }
}

/// A node that can name its ports on the host audio server.
pub trait PortName {
    /// The identity of the node's ports.
    fn ports(&self) -> NodePorts;

    /// The fully qualified name of the node's port `port_index`.
    fn client_port_name(&self, port_index: i64) -> String;
}

/// A connection request that the host audio server refused: the pair of
/// fully qualified port names it was asked to connect.
pub struct ConnectError {
    pub source_port: String,
    pub destination_port: String,
}

/// A node that can ask the host audio server to connect its ports to those of
/// another node.
pub trait PortConnector {
    /// Connects port 1 to port 1 and port 2 to port 2, in that order, and
    /// stops at the first refusal; pairs connected before it stay connected.
    fn connect_to<P: PortName>(&self, client: &P) -> Result<(), ConnectError>;
}

/// The requests that connect node `from` to node `to`: for index 1 and then
/// index 2, the port of `from` to the port of `to` with the same index.
pub fn connection_pairs(from: &NodePorts, to: &NodePorts) -> (r: Vec<(String, String)>)
    ensures
        r@.len() == 2,
        forall|k: int|
            0 <= k < 2 ==> {
                &&& (#[trigger] r@[k]).0@ == spec_qualified_port_name(
                    from.node_name@,
                    from.port_basename@,
                    k + 1,
                )
                &&& r@[k].1@ == spec_qualified_port_name(to.node_name@, to.port_basename@, k + 1)
            },
{
    let mut r: Vec<(String, String)> = Vec::new();
    let mut i: i64 = 1;
    while i < 3
        invariant
            1 <= i <= 3,
            r@.len() == i - 1,
            forall|k: int|
                0 <= k < i - 1 ==> {
                    &&& (#[trigger] r@[k]).0@ == spec_qualified_port_name(
                        from.node_name@,
                        from.port_basename@,
                        k + 1,
                    )
                    &&& r@[k].1@ == spec_qualified_port_name(
                        to.node_name@,
                        to.port_basename@,
                        k + 1,
                    )
                },
        decreases 3 - i,
    {
        let a = from.client_port_name(i);
        let b = to.client_port_name(i);
        r.push((a, b));
        i = i + 1;
    }
    r
}

/// `connect` answered `ok` when asked to connect the ports named by `pair`.
pub open spec fn answered<F: Fn(&str, &str) -> bool>(
    connect: &F,
    pair: (String, String),
    ok: bool,
) -> bool {
    exists|a: &str, b: &str|
        a@ == pair.0@ && b@ == pair.1@ && #[trigger] connect.ensures((a, b), ok)
}

/// Issues the connection requests in order through `connect`, which answers
/// whether the host accepted each, and stops at the first refusal, which it
/// reports; the requests accepted before it are not undone.
pub fn connect_in_order<F: Fn(&str, &str) -> bool>(
    pairs: &Vec<(String, String)>,
    connect: &F,
) -> (r: Result<(), ConnectError>)
    requires
        forall|a: &str, b: &str| connect.requires((a, b)),
    ensures
        r is Ok ==> forall|k: int| 0 <= k < pairs@.len() ==> answered(connect, #[trigger] pairs@[k], true),
        r is Err ==> exists|k: int|
            0 <= k < pairs@.len() && answered(connect, #[trigger] pairs@[k], false) && (forall|j: int|
                0 <= j < k ==> answered(connect, #[trigger] pairs@[j], true))
                && r->Err_0.source_port@ == pairs@[k].0@ && r->Err_0.destination_port@
                == pairs@[k].1@,
{
    let mut i: usize = 0;
    while i < pairs.len()
        invariant
            0 <= i <= pairs@.len(),
            forall|a: &str, b: &str| connect.requires((a, b)),
            forall|j: int| 0 <= j < i ==> answered(connect, #[trigger] pairs@[j], true),
        decreases pairs@.len() - i,
    {
        let source = pairs[i].0.as_str();
        let destination = pairs[i].1.as_str();
        let ok = connect(source, destination);
        assert(answered(connect, pairs@[i as int], ok));
        if !ok {
            return Err(
                ConnectError {
                    source_port: pairs[i].0.clone(),
                    destination_port: pairs[i].1.clone(),
                },
            );
        }
        i = i + 1;
    }
    Ok(())
}

/// The host's own output node, `system`, with ports `playback_1` and
/// `playback_2`.
pub struct PlaybackSystem<'a> {
    name: &'a str,
    port_basename: &'a str,
}

impl<'a> PlaybackSystem<'a> {
    pub closed spec fn spec_name(&self) -> Seq<char> {
        self.name@
    }

    pub closed spec fn spec_basename(&self) -> Seq<char> {
        self.port_basename@
    }

    pub fn new() -> (r: PlaybackSystem<'a>)
        ensures
            r.spec_name() == "system"@,
            r.spec_basename() == "playback"@,
    {
        PlaybackSystem { name: "system", port_basename: "playback" }
    }

    /// The identity of the host's output ports.
    pub fn node_ports(&self) -> (r: NodePorts)
        ensures
            r.node_name@ == self.spec_name(),
            r.port_basename@ == self.spec_basename(),
    {
        NodePorts::new(self.name, self.port_basename)
    }

    /// The fully qualified name of the host's output port `port_index`,
    /// `system:playback_{port_index}`.
    pub fn client_port_name(&self, port_index: i64) -> (r: String)
        ensures
            r@ == spec_qualified_port_name(self.spec_name(), self.spec_basename(), port_index as int),
    {
        qualified_port_name(self.name, self.port_basename, port_index)
    }
}

impl<'a> PortName for PlaybackSystem<'a> {
    fn ports(&self) -> NodePorts {
        self.node_ports()
    }

    fn client_port_name(&self, port_index: i64) -> String {
        PlaybackSystem::client_port_name(self, port_index)
    }
}

} // verus!
