use wlb::lua::{WinApi, WinModule, MAX_INVOCATION_ARGS};
use wlb::types::Value;
use wlb::win::{Module, ModuleInfo, Process};
use wlb::Error;

#[test]
fn prepare_call_reduces_arguments_in_order() {
    let f = wlb::lua::WinFunction::new(0x4000);
    for n in 0..=MAX_INVOCATION_ARGS {
        let args: Vec<Value> = (0..n).map(|i| Value::new_u32(i as u32 + 10)).collect();
        let inv = f.prepare_call(&args).unwrap();
        assert_eq!(inv.address(), 0x4000);
        assert_eq!(inv.words().len(), n);
        for (i, w) in inv.words().iter().enumerate() {
            assert_eq!(*w, i as u64 + 10);
        }
    }
}

#[test]
fn prepare_call_rejects_eight_or_more_arguments() {
    let f = wlb::lua::WinFunction::new(1);
    let args: Vec<Value> = (0..8).map(|_| Value::new_u8(0)).collect();
    assert!(matches!(f.prepare_call(&args), Err(Error::TooManyArguments)));
    let args: Vec<Value> = (0..12).map(|_| Value::new_u8(0)).collect();
    assert!(matches!(f.prepare_call(&args), Err(Error::TooManyArguments)));
}

#[test]
fn prepare_call_rejects_bare_strings() {
    let f = wlb::lua::WinFunction::new(1);
    let args = vec![
        Value::new_u8(1),
        Value::new_cstring("abc".to_string()).unwrap(),
    ];
    assert!(matches!(f.prepare_call(&args), Err(Error::NotAnInteger)));
    // The same string behind a pointer reduces to the pointer's address.
    let s = Value::new_cstring("abc".to_string()).unwrap();
    let addr = s.address();
    let args = vec![Value::new_u8(1), Value::new_pointer(s)];
    let inv = f.prepare_call(&args).unwrap();
    assert_eq!(inv.words()[1], addr);
}

#[test]
fn prepare_call_mixed_argument_kinds() {
    let f = wlb::lua::WinFunction::new(0xffff_ffff_ffff_fff0);
    let args = vec![
        Value::new_u8(1),
        Value::new_u16(2),
        Value::new_u32(3),
        Value::new_u64(4),
        Value::new_raw_pointer(5),
    ];
    let inv = f.prepare_call(&args).unwrap();
    assert_eq!(inv.words(), &vec![1u64, 2, 3, 4, 5]);
}

#[test]
fn access_rights_are_checked_not_downgraded() {
    let p = Process::new(7, 0b011);
    assert!(p.has_access_rights(0b001).is_ok());
    assert!(p.has_access_rights(0b011).is_ok());
    assert!(p.has_access_rights(0).is_ok());
    assert!(matches!(
        p.has_access_rights(0b100),
        Err(Error::InsufficientAccess)
    ));
    assert!(matches!(
        p.has_access_rights(0b111),
        Err(Error::InsufficientAccess)
    ));
}

fn inventory() -> Vec<ModuleInfo> {
    vec![
        ModuleInfo {
            handle: 0x100,
            base_name: "KERNEL32.DLL".to_string(),
        },
        ModuleInfo {
            handle: 0x200,
            base_name: "ntdll.dll".to_string(),
        },
        ModuleInfo {
            handle: 0x300,
            base_name: "user32".to_string(),
        },
    ]
}

#[test]
fn module_resolution_is_case_insensitive_with_or_without_suffix() {
    let p = Process::new(1, 0);
    let modules = inventory();
    assert_eq!(p.get_module(&modules, "kernel32.dll").unwrap().handle(), 0x100);
    assert_eq!(p.get_module(&modules, "kernel32").unwrap().handle(), 0x100);
    assert_eq!(p.get_module(&modules, "KeRnEl32").unwrap().handle(), 0x100);
    assert_eq!(p.get_module(&modules, "NTDLL").unwrap().handle(), 0x200);
    assert_eq!(p.get_module(&modules, "user32.dll").unwrap().handle(), 0x300);
    assert!(p.get_module(&modules, "shell32.dll").is_none());
    assert_eq!(p.get_module(&modules, "kernel32").unwrap().process().handle(), 1);
}

#[test]
fn missing_module_is_a_definite_error() {
    let p = Process::new(1, 0);
    let modules = inventory();
    let m = WinApi::get_module(&p, &modules, "ntdll").unwrap();
    assert_eq!(m.module().handle(), 0x200);
    let r = WinApi::get_module(&p, &modules, "shell32");
    assert!(matches!(r, Err(Error::ModuleNotFound(ref n)) if n == "shell32"));
}

#[test]
fn missing_symbol_is_not_found_not_an_error() {
    let p = Process::new(1, 0);
    let m = WinModule::new(Module::new(p, 0x100));
    // The "must exist" accessor fails with a definite error...
    let r = m.get_function("NoSuchExport", None);
    assert!(matches!(r, Err(Error::FunctionNotFound(ref n)) if n == "NoSuchExport"));
    // ...and dropping the error gives the optional access path.
    assert!(m.get_function("NoSuchExport", None).ok().is_none());
    let f = m.get_function("LoadLibraryA", Some(0xdead)).unwrap();
    assert_eq!(f.address(), 0xdead);
}

#[test]
fn find_function_module_lists_exporting_modules() {
    let p = Process::new(1, 0);
    let resolutions = vec![
        ("kernel32.dll".to_string(), Some(0x111)),
        ("ntdll.dll".to_string(), None),
        ("user32.dll".to_string(), Some(0x333)),
    ];
    let names = p.find_function_module(&resolutions);
    assert_eq!(names, vec!["kernel32.dll".to_string(), "user32.dll".to_string()]);
    assert!(p.find_function_module(&vec![]).is_empty());
}

#[test]
fn module_carries_its_process() {
    let p = Process::new(42, 3);
    let m = Module::new(p, 0x500);
    assert_eq!(m.handle(), 0x500);
    assert_eq!(m.process().handle(), 42);
    assert_eq!(p.handle(), 42);
}
