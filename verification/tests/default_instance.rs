use hyprland::ctl::instance::Instance;
use hyprland::error::HyprError;
use hyprland::{default_instance, default_instance_panic, DefaultInstance};

fn instance(name: &str) -> Instance {
    Instance { instance: name.to_string(), time: 1, pid: 2, wl_socket: "wayland-1".to_string() }
}

fn missing() -> HyprError {
    HyprError::NoDefaultInstance("HYPRLAND_INSTANCE_SIGNATURE is not set".to_string())
}

#[test]
fn new_cell_is_empty() {
    let cell = DefaultInstance::new();
    assert_eq!(cell.get(), None);
}

#[test]
fn first_call_constructs_and_stores() {
    let mut cell = DefaultInstance::new();
    let got = default_instance(&mut cell, || Ok(instance("a_1_b"))).cloned();
    assert_eq!(got, Ok(instance("a_1_b")));
    assert_eq!(cell.get(), Some(&instance("a_1_b")));
}

#[test]
fn second_call_returns_the_same_instance_without_constructing() {
    let mut cell = DefaultInstance::new();
    let first = default_instance(&mut cell, || Ok(instance("a_1_b"))).cloned();
    let mut ran = false;
    let second = default_instance(&mut cell, || {
        ran = true;
        Ok(instance("other_2_c"))
    })
    .cloned();
    assert_eq!(first, second);
    assert_eq!(second, Ok(instance("a_1_b")));
    assert!(!ran);
    let third = default_instance(&mut cell, || Err(missing())).cloned();
    assert_eq!(third, Ok(instance("a_1_b")));
}

#[test]
fn failure_is_returned_and_not_stored() {
    let mut cell = DefaultInstance::new();
    let first = default_instance(&mut cell, || Err(missing())).cloned();
    assert_eq!(first, Err(missing()));
    assert_eq!(cell.get(), None);
    let second = default_instance(&mut cell, || Ok(instance("a_1_b"))).cloned();
    assert_eq!(second, Ok(instance("a_1_b")));
    assert_eq!(cell.get(), Some(&instance("a_1_b")));
}

#[test]
fn every_failed_call_constructs_again() {
    let mut cell = DefaultInstance::new();
    let mut runs = 0;
    for _ in 0..3 {
        let got = default_instance(&mut cell, || {
            runs += 1;
            Err(missing())
        })
        .cloned();
        assert_eq!(got, Err(missing()));
    }
    assert_eq!(runs, 3);
}

#[test]
fn set_stores_once() {
    let mut cell = DefaultInstance::new();
    assert_eq!(cell.set(instance("a_1_b")), Ok(()));
    assert_eq!(cell.set(instance("c_2_d")), Err(instance("c_2_d")));
    assert_eq!(cell.get(), Some(&instance("a_1_b")));
    let got = default_instance(&mut cell, || Ok(instance("e_3_f"))).cloned();
    assert_eq!(got, Ok(instance("a_1_b")));
}

#[test]
fn panicking_variant_returns_the_instance() {
    let mut cell = DefaultInstance::new();
    assert_eq!(default_instance_panic(&mut cell, || Ok(instance("a_1_b"))), &instance("a_1_b"));
    assert_eq!(default_instance_panic(&mut cell, || Err(missing())), &instance("a_1_b"));
}

#[test]
fn error_message() {
    assert_eq!(missing().message(), "HYPRLAND_INSTANCE_SIGNATURE is not set");
    assert_eq!(missing().clone(), missing());
}

#[test]
fn instance_of_the_environment() {
    let got = Instance::from_current_env(
        Some("abc_1700000000_xyz".to_string()),
        Some("1234\nwayland-1\n".to_string()),
    );
    assert_eq!(
        got,
        Ok(Instance {
            instance: "abc_1700000000_xyz".to_string(),
            time: 1700000000,
            pid: 1234,
            wl_socket: "wayland-1".to_string(),
        })
    );
}

#[test]
fn environment_without_an_instance() {
    assert_eq!(
        Instance::from_current_env(None, None),
        Err(HyprError::NoDefaultInstance(
            "Could not get socket path! (Is Hyprland running??)".to_string()
        ))
    );
    assert_eq!(
        Instance::from_current_env(None, Some("1234\nwayland-1".to_string())),
        Err(HyprError::NoDefaultInstance(
            "Could not get socket path! (Is Hyprland running??)".to_string()
        ))
    );
    let stale = HyprError::NoDefaultInstance(
        "The instance named by HYPRLAND_INSTANCE_SIGNATURE is not running".to_string(),
    );
    assert_eq!(Instance::from_current_env(Some("abc_1_xyz".to_string()), None), Err(stale.clone()));
    assert_eq!(
        Instance::from_current_env(Some("abc_1_xyz".to_string()), Some(String::new())),
        Err(stale.clone())
    );
    assert_eq!(
        Instance::from_current_env(Some("abc".to_string()), Some("1\nw".to_string())),
        Err(stale)
    );
}

#[test]
fn default_instance_from_the_environment() {
    let mut cell = DefaultInstance::new();
    let first = default_instance(&mut cell, || Instance::from_current_env(None, None)).cloned();
    assert!(matches!(first, Err(HyprError::NoDefaultInstance(_))));
    let second = default_instance(&mut cell, || {
        Instance::from_current_env(Some("a_5_b".to_string()), Some("6\nw".to_string()))
    })
    .cloned();
    assert_eq!(
        second,
        Ok(Instance { instance: "a_5_b".to_string(), time: 5, pid: 6, wl_socket: "w".to_string() })
    );
}
