use protogen::service::{
    gen_method, gen_method_def, generate_client, method_path, render_client, snake_case,
    MethodDecl, ServiceDecl,
};

fn method(name: &str, proto: &str, input: &str, output: &str) -> MethodDecl {
    MethodDecl {
        name: String::from(name),
        proto_name: String::from(proto),
        input_type: String::from(input),
        output_type: String::from(output),
        comments: Vec::new(),
    }
}

fn greeter() -> ServiceDecl {
    ServiceDecl {
        name: String::from("Greeter"),
        proto_name: String::from("Greeter"),
        package: String::from("helloworld"),
        comments: vec![String::from("The greeting service.")],
        methods: vec![method("say_hello", "SayHello", "HelloRequest", "HelloReply")],
    }
}

#[test]
fn wire_path_is_exact() {
    let s = greeter();
    assert_eq!(method_path(&s, &s.methods[0]), "/helloworld.Greeter/SayHello");
}

#[test]
fn wire_path_components_are_verbatim() {
    let mut s = greeter();
    s.package = String::from(" spaced.pkg ");
    assert_eq!(method_path(&s, &s.methods[0]), "/ spaced.pkg .Greeter/SayHello");
}

#[test]
fn method_def_binds_types_and_path() {
    let s = greeter();
    let d = gen_method_def(&s.methods[0], &s);
    assert_eq!(d.def_name, "SayHelloDef");
    assert_eq!(d.proto_name, "SayHello");
    assert_eq!(d.path, "/helloworld.Greeter/SayHello");
    assert_eq!(d.input_type, "HelloRequest");
    assert_eq!(d.output_type, "HelloReply");
}

#[test]
fn method_stub_binds_names() {
    let s = greeter();
    let st = gen_method(&s.methods[0]);
    assert_eq!(st.method_name, "say_hello");
    assert_eq!(st.def_name, "SayHelloDef");
    assert_eq!(st.input_type, "HelloRequest");
    assert_eq!(st.output_type, "HelloReply");
}

#[test]
fn snake_case_forms() {
    assert_eq!(snake_case("Greeter"), "greeter");
    assert_eq!(snake_case("MyService"), "my_service");
    assert_eq!(snake_case("already_snake"), "already_snake");
    assert_eq!(snake_case("HTTPServer"), "h_t_t_p_server");
}

#[test]
fn client_module_assembles_in_order() {
    let mut s = greeter();
    s.methods.push(method("say_bye", "SayBye", "ByeRequest", "ByeReply"));
    let c = generate_client(&s);
    assert_eq!(c.mod_name, "greeter_client");
    assert_eq!(c.service_name, "Greeter");
    assert_eq!(c.defs.len(), 2);
    assert_eq!(c.stubs.len(), 2);
    assert_eq!(c.defs[0].def_name, "SayHelloDef");
    assert_eq!(c.defs[1].def_name, "SayByeDef");
    assert_eq!(c.stubs[0].method_name, "say_hello");
    assert_eq!(c.stubs[1].method_name, "say_bye");
}

#[test]
fn duplicate_method_names_kept_ambiguous() {
    let mut s = greeter();
    s.methods.push(method("say_hello", "SayHello", "HelloRequest", "HelloReply"));
    let c = generate_client(&s);
    assert_eq!(c.defs.len(), 2);
    assert_eq!(c.defs[0].def_name, c.defs[1].def_name);
}

#[test]
fn rendered_client_holds_the_scaffolding() {
    let s = greeter();
    let text = render_client(&generate_client(&s));
    assert!(text.contains("pub mod greeter_client {"));
    assert!(text.contains("pub struct Greeter<T>(T);"));
    assert!(text.contains("pub fn new(transport: T) -> Self {"));
    assert!(text.contains("impl<T> __ng::Client<T> for Greeter<T> {"));
    assert!(text.contains("pub struct SayHelloDef;"));
    assert!(text.contains(
        "const PATH: __ng::ByteString = __ng::ByteString::from_static(\"/helloworld.Greeter/SayHello\");"
    ));
    assert!(text.contains("const NAME: &'static str = \"SayHello\";"));
    assert!(text.contains("type Input = HelloRequest;"));
    assert!(text.contains("impl<T: __ng::Transport> Greeter<T> {"));
    assert!(text.contains("pub fn say_hello(&self, req: HelloRequest) -> __ng::Request<'_, T, SayHelloDef> {"));
    assert!(text.contains("/// The greeting service."));
}
