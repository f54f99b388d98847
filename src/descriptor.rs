use vstd::prelude::*;

verus! {

/// Streaming cardinality of a method: how many messages flow each way.
#[derive(Debug, Clone, Copy, PartialEq, Eq, Structural)]
pub enum Cardinality {
    Unary,
    ClientStreaming,
    ServerStreaming,
    Bidirectional,
}

pub open spec fn cardinality_spec(client_streaming: bool, server_streaming: bool) -> Cardinality {
    if !client_streaming && !server_streaming {
        Cardinality::Unary
    } else if client_streaming && !server_streaming {
        Cardinality::ClientStreaming
    } else if !client_streaming && server_streaming {
        Cardinality::ServerStreaming
    } else {
        Cardinality::Bidirectional
    }
}

/// One remote method of a service.
#[derive(Clone, Debug)]
pub struct MethodDescriptor {
    /// Name of the operation in the capability interface (`get_single_entry`).
    pub name: String,
    /// Name of the method in the interface description (`GetSingleEntry`); it is the
    /// request kind and the tag that selects the method on the wire.
    pub proto_name: String,
    pub input_type: String,
    pub output_type: String,
    pub client_streaming: bool,
    pub server_streaming: bool,
}

/// Mathematical model of a [`MethodDescriptor`].
pub ghost struct MethodView {
    pub name: Seq<char>,
    pub proto_name: Seq<char>,
    pub input_type: Seq<char>,
    pub output_type: Seq<char>,
    pub client_streaming: bool,
    pub server_streaming: bool,
}

impl MethodView {
    pub open spec fn cardinality(self) -> Cardinality {
        cardinality_spec(self.client_streaming, self.server_streaming)
    }
}

impl View for MethodDescriptor {
    type V = MethodView;

    open spec fn view(&self) -> MethodView {
        MethodView {
            name: self.name@,
            proto_name: self.proto_name@,
            input_type: self.input_type@,
            output_type: self.output_type@,
            client_streaming: self.client_streaming,
            server_streaming: self.server_streaming,
        }
    }
}

impl MethodDescriptor {
    pub fn new(
        name: String,
        proto_name: String,
        input_type: String,
        output_type: String,
        client_streaming: bool,
        server_streaming: bool,
    ) -> (r: MethodDescriptor)
        ensures
            r@ == (MethodView {
                name: name@,
                proto_name: proto_name@,
                input_type: input_type@,
                output_type: output_type@,
                client_streaming,
                server_streaming,
            }),
    {
        MethodDescriptor { name, proto_name, input_type, output_type, client_streaming, server_streaming }
    }

    pub fn cardinality(&self) -> (r: Cardinality)
        ensures
            r == self@.cardinality(),
    {
        match (self.client_streaming, self.server_streaming) {
            (false, false) => Cardinality::Unary,
            (true, false) => Cardinality::ClientStreaming,
            (false, true) => Cardinality::ServerStreaming,
            (true, true) => Cardinality::Bidirectional,
        }
    }
}

/// A service: its name and its methods, in the order of declaration.
pub struct ServiceDescriptor {
    pub name: String,
    pub methods: Vec<MethodDescriptor>,
}

pub open spec fn methods_view(ms: Seq<MethodDescriptor>) -> Seq<MethodView> {
    ms.map_values(|m: MethodDescriptor| m@)
}

impl ServiceDescriptor {
    pub open spec fn methods_spec(&self) -> Seq<MethodView> {
        methods_view(self.methods@)
    }
}

/// A character that may stand in an identifier.
pub open spec fn is_ident_char(c: char) -> bool {
    ('a' <= c && c <= 'z') || ('A' <= c && c <= 'Z') || ('0' <= c && c <= '9') || c == '_'
}

/// A plain ASCII identifier: a letter or `_` first, then letters, digits and `_`,
/// and not `_` alone.
pub open spec fn is_ident(s: Seq<char>) -> bool {
    &&& s.len() > 0
    &&& !('0' <= s[0] && s[0] <= '9')
    &&& forall|i: int| 0 <= i < s.len() ==> is_ident_char(#[trigger] s[i])
    &&& s != seq!['_']
}

/// Every name of the method is an identifier.
pub open spec fn method_names_valid(m: MethodView) -> bool {
    is_ident(m.name) && is_ident(m.proto_name) && is_ident(m.input_type) && is_ident(m.output_type)
}

/// No two methods share a wire tag or an operation name.
pub open spec fn methods_distinct(ms: Seq<MethodView>) -> bool {
    forall|i: int, j: int|
        0 <= i < ms.len() && 0 <= j < ms.len() && i != j ==> #[trigger] ms[i].proto_name
            != #[trigger] ms[j].proto_name && ms[i].name != ms[j].name
}

/// Why a service description cannot be compiled.
#[derive(Debug, Clone, Copy, PartialEq, Eq, Structural)]
pub enum GenError {
    /// The service name, or a method's name or type, is not an identifier.
    InvalidName,
    /// Two methods share a wire tag or an operation name.
    DuplicateMethod,
}

pub open spec fn check_spec(name: Seq<char>, ms: Seq<MethodView>) -> Result<(), GenError> {
    if !is_ident(name) || exists|i: int| 0 <= i < ms.len() && !method_names_valid(#[trigger] ms[i]) {
        Err(GenError::InvalidName)
    } else if !methods_distinct(ms) {
        Err(GenError::DuplicateMethod)
    } else {
        Ok(())
    }
}

/// Whether two strings hold the same characters.
pub fn text_eq(a: &str, b: &str) -> (r: bool)
    ensures
        r == (a@ == b@),
{
    let n = a.unicode_len();
    let m = b.unicode_len();
    if n != m {
        return false;
    }
    let mut i: usize = 0;
    while i < n
        invariant
            n == a@.len(),
            m == b@.len(),
            n == m,
            i <= n,
            forall|j: int| 0 <= j < i ==> a@[j] == b@[j],
        decreases n - i,
    {
        if a.get_char(i) != b.get_char(i) {
            return false;
        }
        i = i + 1;
    }
    assert(a@ =~= b@);
    true
}

/// Whether `s` is an identifier (see [`is_ident`]).
pub fn check_ident(s: &str) -> (r: bool)
    ensures
        r == is_ident(s@),
{
    let n = s.unicode_len();
    if n == 0 {
        return false;
    }
    let first = s.get_char(0);
    if '0' <= first && first <= '9' {
        return false;
    }
    if n == 1 && first == '_' {
        assert(s@ =~= seq!['_']);
        return false;
    }
    let mut i: usize = 0;
    while i < n
        invariant
            n == s@.len(),
            i <= n,
            forall|j: int| 0 <= j < i ==> is_ident_char(#[trigger] s@[j]),
        decreases n - i,
    {
        let c = s.get_char(i);
        if !(('a' <= c && c <= 'z') || ('A' <= c && c <= 'Z') || ('0' <= c && c <= '9') || c == '_') {
            return false;
        }
        i = i + 1;
    }
    assert(s@ != seq!['_']) by {
        if s@ == seq!['_'] {
            assert(s@[0] == '_');
        }
    }
    true
}

fn check_method(m: &MethodDescriptor) -> (r: bool)
    ensures
        r == method_names_valid(m@),
{
    check_ident(m.name.as_str()) && check_ident(m.proto_name.as_str()) && check_ident(
        m.input_type.as_str(),
    ) && check_ident(m.output_type.as_str())
}

impl ServiceDescriptor {
    pub fn new(name: String, methods: Vec<MethodDescriptor>) -> (r: ServiceDescriptor)
        ensures
            r.name@ == name@,
            r.methods@ == methods@,
    {
        ServiceDescriptor { name, methods }
    }

    /// Checks that the description can be compiled: all names are identifiers and
    /// no two methods collide.
    pub fn check(&self) -> (r: Result<(), GenError>)
        ensures
            r == check_spec(self.name@, self.methods_spec()),
    {
        let ghost ms = self.methods_spec();
        let n = self.methods.len();
        if !check_ident(self.name.as_str()) {
            return Err(GenError::InvalidName);
        }
        let mut i: usize = 0;
        while i < n
            invariant
                n == self.methods@.len(),
                ms == self.methods_spec(),
                ms.len() == n,
                is_ident(self.name@),
                i <= n,
                forall|k: int| 0 <= k < i ==> method_names_valid(#[trigger] ms[k]),
            decreases n - i,
        {
            if !check_method(&self.methods[i]) {
                assert(!method_names_valid(ms[i as int]));
                return Err(GenError::InvalidName);
            }
            i = i + 1;
        }
        let mut a: usize = 0;
        while a < n
            invariant
                n == self.methods@.len(),
                ms == self.methods_spec(),
                ms.len() == n,
                is_ident(self.name@),
                a <= n,
                forall|k: int| 0 <= k < n ==> method_names_valid(#[trigger] ms[k]),
                forall|x: int, y: int|
                    0 <= x < a && 0 <= y < n && x != y ==> #[trigger] ms[x].proto_name
                        != #[trigger] ms[y].proto_name && ms[x].name != ms[y].name,
            decreases n - a,
        {
            let mut b: usize = 0;
            while b < n
                invariant
                    n == self.methods@.len(),
                    ms == self.methods_spec(),
                    ms.len() == n,
                    is_ident(self.name@),
                    a < n,
                    b <= n,
                    forall|k: int| 0 <= k < n ==> method_names_valid(#[trigger] ms[k]),
                    forall|x: int, y: int|
                        0 <= x < a && 0 <= y < n && x != y ==> #[trigger] ms[x].proto_name
                            != #[trigger] ms[y].proto_name && ms[x].name != ms[y].name,
                    forall|y: int|
                        0 <= y < b && a != y ==> ms[a as int].proto_name != #[trigger] ms[y].proto_name
                            && ms[a as int].name != ms[y].name,
                decreases n - b,
            {
                if a != b {
                    if text_eq(self.methods[a].proto_name.as_str(), self.methods[b].proto_name.as_str())
                        || text_eq(self.methods[a].name.as_str(), self.methods[b].name.as_str()) {
                        assert(!methods_distinct(ms)) by {
                            assert(ms[a as int].proto_name == ms[b as int].proto_name
                                || ms[a as int].name == ms[b as int].name);
                        }
                        assert(!exists|k: int| 0 <= k < ms.len() && !method_names_valid(#[trigger] ms[k]));
                        return Err(GenError::DuplicateMethod);
                    }
                }
                b = b + 1;
            }
            a = a + 1;
        }
        Ok(())
    }
}

} // verus!
