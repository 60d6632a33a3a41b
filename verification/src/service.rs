//! Services: method descriptors, canonical wire paths, and the client
//! scaffolding emitted for each service.

use vstd::prelude::*;

verus! {

/// A method declaration of a service, as the upstream schema processing
/// hands it over.
pub struct MethodDecl {
    pub name: String,
    pub proto_name: String,
    pub input_type: String,
    pub output_type: String,
    pub comments: Vec<String>,
}

/// The mathematical model of a method declaration.
pub struct MethodDeclV {
    pub name: Seq<char>,
    pub proto_name: Seq<char>,
    pub input_type: Seq<char>,
    pub output_type: Seq<char>,
    pub comments: Seq<Seq<char>>,
}

impl View for MethodDecl {
    type V = MethodDeclV;

    open spec fn view(&self) -> MethodDeclV {
        MethodDeclV {
            name: self.name@,
            proto_name: self.proto_name@,
            input_type: self.input_type@,
            output_type: self.output_type@,
            comments: self.comments.deep_view(),
        }
    }
}

/// A service declaration: name, package, proto name, leading comments,
/// and its methods in declaration order.
pub struct ServiceDecl {
    pub name: String,
    pub proto_name: String,
    pub package: String,
    pub comments: Vec<String>,
    pub methods: Vec<MethodDecl>,
}

/// The mathematical model of a service declaration.
pub struct ServiceDeclV {
    pub name: Seq<char>,
    pub proto_name: Seq<char>,
    pub package: Seq<char>,
    pub comments: Seq<Seq<char>>,
    pub methods: Seq<MethodDeclV>,
}

impl View for ServiceDecl {
    type V = ServiceDeclV;

    open spec fn view(&self) -> ServiceDeclV {
        ServiceDeclV {
            name: self.name@,
            proto_name: self.proto_name@,
            package: self.package@,
            comments: self.comments.deep_view(),
            methods: Seq::new(self.methods@.len(), |i: int| self.methods@[i]@),
        }
    }
}

/// Copies a list of comment lines, keeping each line's content.
fn clone_strings(v: &Vec<String>) -> (r: Vec<String>)
    ensures
        r@ == v@,
        r.deep_view() == v.deep_view(),
{
    let mut out: Vec<String> = Vec::new();
    let n = v.len();
    let mut i: usize = 0;
    while i < n
        invariant
            n == v@.len(),
            0 <= i <= n,
            out@ =~= v@.subrange(0, i as int),
        decreases n - i,
    {
        out.push(v[i].clone());
        i = i + 1;
        proof {
            assert(out@ =~= v@.subrange(0, i as int));
        }
    }
    proof {
        assert(v@.subrange(0, n as int) =~= v@);
        assert(out@ == v@);
    }
    out
}

/// The canonical wire path of a method:
/// `/{package}.{service_proto_name}/{method_proto_name}`, each component
/// used verbatim, with no escaping or normalization.
pub open spec fn spec_wire_path(
    package: Seq<char>,
    service_proto: Seq<char>,
    method_proto: Seq<char>,
) -> Seq<char> {
    seq!['/'] + package + seq!['.'] + service_proto + seq!['/'] + method_proto
}

/// Formats the canonical wire path of a method of a service.
pub fn method_path(service: &ServiceDecl, method: &MethodDecl) -> (r: String)
    ensures
        r@ == spec_wire_path(service@.package, service@.proto_name, method@.proto_name),
{
    let mut out = String::from_str("/");
    out.append(service.package.as_str());
    out.append(".");
    out.append(service.proto_name.as_str());
    out.append("/");
    out.append(method.proto_name.as_str());
    proof {
        reveal_strlit("/");
        reveal_strlit(".");
        assert(out@ =~= spec_wire_path(service@.package, service@.proto_name, method@.proto_name));
    }
    out
}

/// A method-descriptor binding: a stable name, the canonical wire path,
/// and the method's request and response type identifiers.
#[derive(Debug, PartialEq, Eq)]
pub struct MethodDef {
    pub def_name: String,
    pub proto_name: String,
    pub path: String,
    pub input_type: String,
    pub output_type: String,
}

/// The mathematical model of a method-descriptor binding.
pub struct MethodDefV {
    pub def_name: Seq<char>,
    pub proto_name: Seq<char>,
    pub path: Seq<char>,
    pub input_type: Seq<char>,
    pub output_type: Seq<char>,
}

impl View for MethodDef {
    type V = MethodDefV;

    open spec fn view(&self) -> MethodDefV {
        MethodDefV {
            def_name: self.def_name@,
            proto_name: self.proto_name@,
            path: self.path@,
            input_type: self.input_type@,
            output_type: self.output_type@,
        }
    }
}

/// The method-descriptor binding of a method within a service.
pub open spec fn spec_method_def(m: MethodDeclV, s: ServiceDeclV) -> MethodDefV {
    MethodDefV {
        def_name: m.proto_name + "Def"@,
        proto_name: m.proto_name,
        path: spec_wire_path(s.package, s.proto_name, m.proto_name),
        input_type: m.input_type,
        output_type: m.output_type,
    }
}

/// Emits the method-descriptor binding of a method of a service.
pub fn gen_method_def(method: &MethodDecl, service: &ServiceDecl) -> (r: MethodDef)
    ensures
        r@ == spec_method_def(method@, service@),
{
    let mut def_name = method.proto_name.clone();
    def_name.append("Def");
    MethodDef {
        def_name,
        proto_name: method.proto_name.clone(),
        path: method_path(service, method),
        input_type: method.input_type.clone(),
        output_type: method.output_type.clone(),
    }
}

/// A callable stub: given a request value it produces a pending call
/// bound to the transport and the method-descriptor binding.
#[derive(Debug, PartialEq, Eq)]
pub struct MethodStub {
    pub method_name: String,
    pub def_name: String,
    pub input_type: String,
    pub output_type: String,
    pub comments: Vec<String>,
}

/// The mathematical model of a callable stub.
pub struct MethodStubV {
    pub method_name: Seq<char>,
    pub def_name: Seq<char>,
    pub input_type: Seq<char>,
    pub output_type: Seq<char>,
    pub comments: Seq<Seq<char>>,
}

impl View for MethodStub {
    type V = MethodStubV;

    open spec fn view(&self) -> MethodStubV {
        MethodStubV {
            method_name: self.method_name@,
            def_name: self.def_name@,
            input_type: self.input_type@,
            output_type: self.output_type@,
            comments: self.comments.deep_view(),
        }
    }
}

/// The callable stub of a method.
pub open spec fn spec_method_stub(m: MethodDeclV) -> MethodStubV {
    MethodStubV {
        method_name: m.name,
        def_name: m.proto_name + "Def"@,
        input_type: m.input_type,
        output_type: m.output_type,
        comments: m.comments,
    }
}

/// Emits the callable stub of a method.
pub fn gen_method(method: &MethodDecl) -> (r: MethodStub)
    ensures
        r@ == spec_method_stub(method@),
{
    let mut def_name = method.proto_name.clone();
    def_name.append("Def");
    let comments = clone_strings(&method.comments);
    MethodStub {
        method_name: method.name.clone(),
        def_name,
        input_type: method.input_type.clone(),
        output_type: method.output_type.clone(),
        comments,
    }
}

/// The client scaffolding of one service: its module name, the client
/// type name, the service comments, one descriptor binding and one stub
/// per method, in declaration order.
#[derive(Debug, PartialEq, Eq)]
pub struct ClientModule {
    pub mod_name: String,
    pub service_name: String,
    pub comments: Vec<String>,
    pub defs: Vec<MethodDef>,
    pub stubs: Vec<MethodStub>,
}

/// The mathematical model of a client module.
pub struct ClientModuleV {
    pub mod_name: Seq<char>,
    pub service_name: Seq<char>,
    pub comments: Seq<Seq<char>>,
    pub defs: Seq<MethodDefV>,
    pub stubs: Seq<MethodStubV>,
}

impl View for ClientModule {
    type V = ClientModuleV;

    open spec fn view(&self) -> ClientModuleV {
        ClientModuleV {
            mod_name: self.mod_name@,
            service_name: self.service_name@,
            comments: self.comments.deep_view(),
            defs: Seq::new(self.defs@.len(), |i: int| self.defs@[i]@),
            stubs: Seq::new(self.stubs@.len(), |i: int| self.stubs@[i]@),
        }
    }
}

/// The client module of a service: the module is named after the service
/// in snake case with a `_client` suffix, and methods keep their
/// declaration order.
pub open spec fn spec_client_module(s: ServiceDeclV) -> ClientModuleV {
    ClientModuleV {
        mod_name: snake_of(s.name) + "_client"@,
        service_name: s.name,
        comments: s.comments,
        defs: Seq::new(s.methods.len(), |i: int| spec_method_def(s.methods[i], s)),
        stubs: Seq::new(s.methods.len(), |i: int| spec_method_stub(s.methods[i])),
    }
}

/// Assembles the client scaffolding of a service.
pub fn generate_client(service: &ServiceDecl) -> (r: ClientModule)
    ensures
        r@ == spec_client_module(service@),
{
    let mut mod_name = snake_case(service.name.as_str());
    mod_name.append("_client");
    let comments = clone_strings(&service.comments);
    let n = service.methods.len();
    let mut defs: Vec<MethodDef> = Vec::new();
    let mut stubs: Vec<MethodStub> = Vec::new();
    let mut j: usize = 0;
    while j < n
        invariant
            n == service.methods@.len(),
            0 <= j <= n,
            defs@.len() == j,
            stubs@.len() == j,
            forall|k: int| 0 <= k < j ==> (#[trigger] defs@[k])@ == spec_method_def(
                service@.methods[k],
                service@,
            ),
            forall|k: int| 0 <= k < j ==> (#[trigger] stubs@[k])@ == spec_method_stub(
                service@.methods[k],
            ),
        decreases n - j,
    {
        let m = &service.methods[j];
        proof {
            assert(m@ == service@.methods[j as int]);
        }
        defs.push(gen_method_def(m, service));
        stubs.push(gen_method(m));
        j = j + 1;
    }
    let r = ClientModule {
        mod_name,
        service_name: service.name.clone(),
        comments,
        defs,
        stubs,
    };
    proof {
        assert(r@.defs =~= spec_client_module(service@).defs);
        assert(r@.stubs =~= spec_client_module(service@).stubs);
    }
    r
}

/// Comment lines rendered as doc comments under the given indentation
/// prefix.
pub open spec fn spec_render_comments(cs: Seq<Seq<char>>, prefix: Seq<char>) -> Seq<char>
    decreases cs.len(),
{
    if cs.len() == 0 {
        Seq::<char>::empty()
    } else {
        spec_render_comments(cs.drop_last(), prefix) + prefix + cs.last() + "\n"@
    }
}

/// The rendered text of one method-descriptor binding.
pub open spec fn spec_render_def_text(d: MethodDefV) -> Seq<char> {
    "    #[derive(Debug, Copy, Clone, PartialEq, Eq)]\n    pub struct "@ + d.def_name + ";\n\n"@
        + "    impl __ng::MethodDef for "@ + d.def_name
        + " {\n        const NAME: &'static str = \""@ + d.proto_name
        + "\";\n        const PATH: __ng::ByteString = __ng::ByteString::from_static(\""@ + d.path
        + "\");\n        type Input = "@ + d.input_type + ";\n        type Output = "@
        + d.output_type + ";\n    }\n\n"@
}

/// The rendered text of all method-descriptor bindings, in order.
pub open spec fn spec_render_defs(ds: Seq<MethodDefV>) -> Seq<char>
    decreases ds.len(),
{
    if ds.len() == 0 {
        Seq::<char>::empty()
    } else {
        spec_render_defs(ds.drop_last()) + spec_render_def_text(ds.last())
    }
}

/// The rendered text of one callable stub.
pub open spec fn spec_render_stub_text(st: MethodStubV) -> Seq<char> {
    spec_render_comments(st.comments, "        /// "@) + "        pub fn "@ + st.method_name
        + "(&self, req: "@ + st.input_type + ") -> __ng::Request<'_, T, "@ + st.def_name
        + "> {\n            __ng::Request::new(&self.0, req)\n        }\n"@
}

/// The rendered text of all callable stubs, in order.
pub open spec fn spec_render_stubs(sts: Seq<MethodStubV>) -> Seq<char>
    decreases sts.len(),
{
    if sts.len() == 0 {
        Seq::<char>::empty()
    } else {
        spec_render_stubs(sts.drop_last()) + spec_render_stub_text(sts.last())
    }
}

/// The rendered text of a whole client module.
pub open spec fn spec_render_client(c: ClientModuleV) -> Seq<char> {
    "/// Service client definition\npub mod "@ + c.mod_name
        + " {\n    use super::*;\n    use ntex_grpc::codegen as __ng;\n\n"@
        + spec_render_comments(c.comments, "    /// "@) + "    #[derive(Clone)]\n    pub struct "@
        + c.service_name + "<T>(T);\n\n    impl<T> "@ + c.service_name
        + "<T> {\n        /// Create a new service client\n        pub fn new(transport: T) -> Self {\n            "@
        + c.service_name + "(transport)\n        }\n    }\n\n    impl<T> __ng::Client<T> for "@
        + c.service_name
        + "<T> {\n        /// Get reference to underlying transport\n        fn transport(&self) -> &T {\n            &self.0\n        }\n\n        /// Get mut reference to underlying transport\n        fn transport_mut(&mut self) -> &mut T {\n            &mut self.0\n        }\n\n        /// Consume client and return inner transport\n        fn into_inner(self) -> T {\n            self.0\n        }\n    }\n\n"@
        + spec_render_defs(c.defs) + "    impl<T: __ng::Transport> "@ + c.service_name + "<T> {\n"@
        + spec_render_stubs(c.stubs) + "    }\n}\n"@
}

/// Renders comment lines as doc comments under an indentation prefix.
pub fn render_comments(cs: &Vec<String>, prefix: &str) -> (r: String)
    ensures
        r@ == spec_render_comments(cs.deep_view(), prefix@),
{
    let mut out = String::new();
    let n = cs.len();
    let mut i: usize = 0;
    while i < n
        invariant
            n == cs@.len(),
            0 <= i <= n,
            out@ == spec_render_comments(cs.deep_view().subrange(0, i as int), prefix@),
        decreases n - i,
    {
        out.append(prefix);
        out.append(cs[i].as_str());
        out.append("\n");
        i = i + 1;
        proof {
            assert(cs.deep_view().subrange(0, i as int).drop_last() =~= cs.deep_view().subrange(
                0,
                i - 1,
            ));
            assert(cs.deep_view().subrange(0, i as int).last() == cs@[i - 1]@);
            assert(out@ =~= spec_render_comments(cs.deep_view().subrange(0, i as int), prefix@));
        }
    }
    proof {
        assert(cs.deep_view().subrange(0, n as int) =~= cs.deep_view());
    }
    out
}

/// Renders one method-descriptor binding.
pub fn render_method_def(d: &MethodDef) -> (r: String)
    ensures
        r@ == spec_render_def_text(d@),
{
    let mut out = String::from_str("    #[derive(Debug, Copy, Clone, PartialEq, Eq)]\n    pub struct ");
    out.append(d.def_name.as_str());
    out.append(";\n\n");
    out.append("    impl __ng::MethodDef for ");
    out.append(d.def_name.as_str());
    out.append(" {\n        const NAME: &'static str = \"");
    out.append(d.proto_name.as_str());
    out.append("\";\n        const PATH: __ng::ByteString = __ng::ByteString::from_static(\"");
    out.append(d.path.as_str());
    out.append("\");\n        type Input = ");
    out.append(d.input_type.as_str());
    out.append(";\n        type Output = ");
    out.append(d.output_type.as_str());
    out.append(";\n    }\n\n");
    proof {
        assert(out@ =~= spec_render_def_text(d@));
    }
    out
}

/// Renders one callable stub.
pub fn render_stub(st: &MethodStub) -> (r: String)
    ensures
        r@ == spec_render_stub_text(st@),
{
    let mut out = render_comments(&st.comments, "        /// ");
    out.append("        pub fn ");
    out.append(st.method_name.as_str());
    out.append("(&self, req: ");
    out.append(st.input_type.as_str());
    out.append(") -> __ng::Request<'_, T, ");
    out.append(st.def_name.as_str());
    out.append("> {\n            __ng::Request::new(&self.0, req)\n        }\n");
    proof {
        assert(out@ =~= spec_render_stub_text(st@));
    }
    out
}

/// Renders a whole client module as code text.
pub fn render_client(c: &ClientModule) -> (r: String)
    ensures
        r@ == spec_render_client(c@),
{
    let mut out = String::from_str("/// Service client definition\npub mod ");
    out.append(c.mod_name.as_str());
    out.append(" {\n    use super::*;\n    use ntex_grpc::codegen as __ng;\n\n");
    out.append(render_comments(&c.comments, "    /// ").as_str());
    out.append("    #[derive(Clone)]\n    pub struct ");
    out.append(c.service_name.as_str());
    out.append("<T>(T);\n\n    impl<T> ");
    out.append(c.service_name.as_str());
    out.append(
        "<T> {\n        /// Create a new service client\n        pub fn new(transport: T) -> Self {\n            ",
    );
    out.append(c.service_name.as_str());
    out.append("(transport)\n        }\n    }\n\n    impl<T> __ng::Client<T> for ");
    out.append(c.service_name.as_str());
    out.append(
        "<T> {\n        /// Get reference to underlying transport\n        fn transport(&self) -> &T {\n            &self.0\n        }\n\n        /// Get mut reference to underlying transport\n        fn transport_mut(&mut self) -> &mut T {\n            &mut self.0\n        }\n\n        /// Consume client and return inner transport\n        fn into_inner(self) -> T {\n            self.0\n        }\n    }\n\n",
    );
    let ghost head = out@;
    let nd = c.defs.len();
    let mut i: usize = 0;
    while i < nd
        invariant
            nd == c.defs@.len(),
            0 <= i <= nd,
            out@ == head + spec_render_defs(c@.defs.subrange(0, i as int)),
        decreases nd - i,
    {
        out.append(render_method_def(&c.defs[i]).as_str());
        i = i + 1;
        proof {
            assert(c@.defs.subrange(0, i as int).drop_last() =~= c@.defs.subrange(0, i - 1));
            assert(c@.defs.subrange(0, i as int).last() == c.defs@[i - 1]@);
            assert(out@ =~= head + spec_render_defs(c@.defs.subrange(0, i as int)));
        }
    }
    proof {
        assert(c@.defs.subrange(0, nd as int) =~= c@.defs);
    }
    out.append("    impl<T: __ng::Transport> ");
    out.append(c.service_name.as_str());
    out.append("<T> {\n");
    let ghost head2 = out@;
    let ns = c.stubs.len();
    let mut j: usize = 0;
    while j < ns
        invariant
            ns == c.stubs@.len(),
            0 <= j <= ns,
            out@ == head2 + spec_render_stubs(c@.stubs.subrange(0, j as int)),
        decreases ns - j,
    {
        out.append(render_stub(&c.stubs[j]).as_str());
        j = j + 1;
        proof {
            assert(c@.stubs.subrange(0, j as int).drop_last() =~= c@.stubs.subrange(0, j - 1));
            assert(c@.stubs.subrange(0, j as int).last() == c.stubs@[j - 1]@);
            assert(out@ =~= head2 + spec_render_stubs(c@.stubs.subrange(0, j as int)));
        }
    }
    proof {
        assert(c@.stubs.subrange(0, ns as int) =~= c@.stubs);
    }
    out.append("    }\n}\n");
    proof {
        assert(out@ =~= spec_render_client(c@));
    }
    out
}

/// The lower-case form of an ASCII upper-case letter; any other
/// character stands as itself.
pub open spec fn lower_char(c: char) -> char {
    if 'A' <= c && c <= 'Z' {
        (((c as u32) + 32) as u8) as char
    } else {
        c
    }
}

/// One character of the snake-case form: an upper-case letter becomes an
/// underscore (except at the start) and its lower-case form.
pub open spec fn snake_step(c: char, first: bool) -> Seq<char> {
    if 'A' <= c && c <= 'Z' {
        if first {
            seq![lower_char(c)]
        } else {
            seq!['_', lower_char(c)]
        }
    } else {
        seq![c]
    }
}

/// The snake-case form of a name.
pub open spec fn snake_of(s: Seq<char>) -> Seq<char>
    decreases s.len(),
{
    if s.len() == 0 {
        Seq::<char>::empty()
    } else {
        snake_of(s.drop_last()) + snake_step(s.last(), s.len() == 1)
    }
}

/// Converts a name to snake case.
pub fn snake_case(s: &str) -> (r: String)
    ensures
        r@ == snake_of(s@),
{
    let n = s.unicode_len();
    let mut out = String::new();
    let mut i: usize = 0;
    while i < n
        invariant
            n == s@.len(),
            0 <= i <= n,
            out@ == snake_of(s@.subrange(0, i as int)),
        decreases n - i,
    {
        let c = s.get_char(i);
        if 'A' <= c && c <= 'Z' {
            if i > 0 {
                out.push('_');
            }
            let lc = (((c as u32) + 32) as u8) as char;
            proof {
                assert(lc == lower_char(c));
            }
            out.push(lc);
        } else {
            out.push(c);
        }
        i = i + 1;
        proof {
            assert(s@.subrange(0, i as int).drop_last() =~= s@.subrange(0, i - 1));
            assert(out@ =~= snake_of(s@.subrange(0, i as int)));
        }
    }
    proof {
        assert(s@.subrange(0, n as int) =~= s@);
    }
    out
}

} // verus!
