use tauri_plugin_bin_ipc::command_support::{argument_index, take_argument};
use std::marker::PhantomData;
use tauri_plugin_bin_ipc::bin_ipc_error::BinIpcError;
use tauri_plugin_bin_ipc::codegen::{
    arg_field_name, arg_field_names, command_args, ident_suffix, runtime_param_name, suffixed,
    visitor_expecting, CodegenError, FnArgKind, GenericParamKind,
};
use tauri_plugin_bin_ipc::command_support::{
    flatten_join_result, from_app_handle_proxy, listener_outcome, wrap_result, FromAppHandle,
    ListenerError, MissingArgumentError, NoSuchCommandError, ShouldNotBeDeserlialized, WrapResult,
};
use tauri_plugin_bin_ipc::commands::{
    no_args, no_args_no_return, return_ipc_error, returns_result, simple, take_app_handle,
};
use tauri_plugin_bin_ipc::event_emitter::{EventEmitter, IpcEventType, BIN_IPC_EVENT_NAME};

#[test]
fn bin_ipc_error_flags() {
    let e = BinIpcError::new_reportable("x");
    assert!(e.is_reportable());
    assert_eq!(e.into_inner(), "x");
    let f: BinIpcError<&str> = BinIpcError::from("y");
    assert!(!f.is_reportable());
    assert_eq!(f.into_inner(), "y");
    assert!(!BinIpcError::from_error(3).is_reportable());
}

#[test]
fn error_messages() {
    let m = MissingArgumentError { command_name: "greet", arg_name: "name" };
    assert_eq!(m.message(), "missing argument `name` of command `greet`");
    let n = NoSuchCommandError(String::from("nope"));
    assert_eq!(n.message(), "Command `nope` does not exists.");
    let s: ShouldNotBeDeserlialized<u8> = ShouldNotBeDeserlialized::new();
    assert_eq!(s.message("u8"), "The type `u8` should not be deserlialized.");
}

#[test]
fn wrap_results() {
    let w: WrapResult<Result<u8, String>> = wrap_result();
    assert_eq!(w.wrap(Ok(1)), Ok(1));
    assert_eq!(w.wrap(Err(String::from("e"))), Err(String::from("e")));
    let p: WrapResult<u8> = WrapResult(PhantomData);
    assert_eq!(p.never_fail().wrap(5).unwrap(), 5);
    assert_eq!(wrap_result::<u8>().wrap(6).unwrap(), 6);
}

#[test]
fn flatten_results() {
    let ok: Result<Result<u8, BinIpcError<&str>>, &str> = Ok(Ok(1));
    assert_eq!(flatten_join_result(ok).ok(), Some(1));
    let inner: Result<Result<u8, BinIpcError<&str>>, &str> = Ok(Err(BinIpcError::new_reportable("a")));
    let e = flatten_join_result(inner).err().unwrap();
    assert!(e.is_reportable());
    assert_eq!(e.into_inner(), "a");
    let outer: Result<Result<u8, BinIpcError<&str>>, &str> = Err("join");
    let e = flatten_join_result(outer).err().unwrap();
    assert!(!e.is_reportable());
    assert_eq!(e.into_inner(), "join");
}

#[test]
fn listener_outcomes() {
    let a: Result<Result<(), u8>, char> = Ok(Ok(()));
    assert!(listener_outcome(a).is_ok());
    let b: Result<Result<(), u8>, char> = Ok(Err(3));
    assert!(matches!(listener_outcome(b), Err(ListenerError::Custom(3))));
    let c: Result<Result<(), u8>, char> = Err('j');
    assert!(matches!(listener_outcome(c), Err(ListenerError::Tauri('j'))));
}

struct Handle(u32);
#[derive(Debug, PartialEq)]
struct FromHandle(u32);
impl FromAppHandle<Handle> for FromHandle {
    fn from_app_handle(app: &Handle) -> Self {
        FromHandle(app.0)
    }
}

#[test]
fn app_handle_proxies() {
    let h = Handle(9);
    assert_eq!(from_app_handle_proxy::<Handle, FromHandle>().from_app_handle(&h), Some(FromHandle(9)));
    assert_eq!(from_app_handle_proxy::<Handle, String>().fallback().from_app_handle(&h), None);
    assert_eq!(from_app_handle_proxy::<Handle, String>().from_app_handle(&h), None);
}

#[test]
fn codegen_names() {
    assert_eq!(ident_suffix(), "0cc84921_b5dc_4044_86a1_58ee53f2643a");
    assert_eq!(suffixed("__D_"), "__D_0cc84921_b5dc_4044_86a1_58ee53f2643a");
    assert_eq!(arg_field_name(0), "arg0");
    assert_eq!(arg_field_name(12), "arg12");
    assert_eq!(arg_field_names(3), vec!["arg0", "arg1", "arg2"]);
    assert!(arg_field_names(0).is_empty());
    assert_eq!(visitor_expecting("greet"), "arguments of command `greet`");
}

#[test]
fn codegen_runtime_param() {
    assert_eq!(runtime_param_name(Some(GenericParamKind::Type(String::from("R")))), Ok(String::from("R")));
    assert_eq!(
        runtime_param_name(None),
        Ok(String::from("__R_0cc84921_b5dc_4044_86a1_58ee53f2643a"))
    );
    assert_eq!(runtime_param_name(Some(GenericParamKind::Lifetime)), Err(CodegenError::NotTypeParameter));
    assert_eq!(runtime_param_name(Some(GenericParamKind::Const)), Err(CodegenError::NotTypeParameter));
    assert_eq!(CodegenError::NotTypeParameter.message(), "bin ipc command only have type parameter.");
}

#[test]
fn codegen_command_args() {
    let ok = vec![FnArgKind::Ident(String::from("x")), FnArgKind::Ident(String::from("y"))];
    assert_eq!(command_args(&ok), Ok(vec![String::from("x"), String::from("y")]));
    assert_eq!(command_args(&Vec::new()), Ok(Vec::new()));
    let recv = vec![FnArgKind::Receiver, FnArgKind::OtherPattern];
    assert_eq!(command_args(&recv), Err(CodegenError::NotStandalone));
    let pat = vec![FnArgKind::Ident(String::from("x")), FnArgKind::OtherPattern, FnArgKind::Receiver];
    assert_eq!(command_args(&pat), Err(CodegenError::NotIdentPattern));
    assert_eq!(CodegenError::NotStandalone.message(), "command must be standalone function.");
    assert_eq!(
        CodegenError::NotIdentPattern.message(),
        "command parameter pattern must be identifier pattern."
    );
}

#[test]
fn example_commands() {
    assert_eq!(simple(4), 4);
    assert_eq!(no_args(), 0);
    no_args_no_return();
    take_app_handle(());
    assert_eq!(returns_result(1, 2), Ok(3));
    assert!(returns_result(1, -1).is_err());
    assert_eq!(return_ipc_error(5, 0).ok(), Some(5));
    let e = return_ipc_error(5, -3).err().unwrap();
    assert!(e.is_reportable());
}

#[test]
fn events() {
    assert_eq!(BIN_IPC_EVENT_NAME, "bin-ipc-signal");
    let em = EventEmitter::new("bin-ipc", 4);
    let r = em.ready_event();
    assert_eq!(r.ty, IpcEventType::ReadyToPop);
    assert_eq!(r.scheme, "bin-ipc");
    assert_eq!(r.id, 4);
    let c = em.cleanup_event();
    assert_eq!(c.ty, IpcEventType::CleanUp);
    assert_eq!(IpcEventType::ReadyToPop.as_str(), "ready-to-pop");
    assert_eq!(IpcEventType::CleanUp.as_str(), "cleanup");
}

#[test]
fn argument_decoding_rules() {
    let names = ["x", "y", "x"];
    assert_eq!(argument_index(&names, "x"), Some(0));
    assert_eq!(argument_index(&names, "y"), Some(1));
    assert_eq!(argument_index(&names, "z"), None);
    assert_eq!(argument_index(&[], "x"), None);
    assert_eq!(take_argument(Some(3u8), "c", "a"), Ok(3));
    assert_eq!(
        take_argument::<u8>(None, "c", "a"),
        Err(MissingArgumentError { command_name: "c", arg_name: "a" })
    );
}

#[test]
fn from_parts_packs() {
    let id = tauri_plugin_bin_ipc::secure_arena_id::SecureArenaId::from_parts(7, 5);
    assert_eq!(id.id(), 7);
    assert_eq!(id.key(), 5);
    assert_eq!(id.to_raw(), 7 + (5u64 << 32));
}
