use kakureyado::cli::start_command;
use kakureyado::{
    Error, LocalOnionHost, MemoryRegistry, OnionService, ServiceConfig, ServiceStatus, Timestamp,
    TorOnionHost,
};

fn test_service(name: &str) -> OnionService {
    OnionService {
        name: name.to_owned(),
        onion_address: format!("{name}.onion"),
        target_addr: "127.0.0.1".to_owned(),
        target_port: 8080,
        status: ServiceStatus::Stopped,
        created_at: Timestamp::now(),
    }
}

fn test_config(name: &str) -> ServiceConfig {
    ServiceConfig {
        name: name.to_owned(),
        target_addr: "127.0.0.1".to_owned(),
        target_port: 8080,
        onion_port: 80,
        persistent: false,
        vanity_prefix: None,
    }
}

// -- registry -----------------------------------------------------------------

#[test]
fn register_and_get() {
    let mut registry = MemoryRegistry::new();
    registry
        .register(test_service("web"))
        .expect("register must succeed");

    let svc = registry.get("web").expect("get must succeed");
    assert_eq!(svc.name, "web");
}

#[test]
fn list_returns_all() {
    let mut registry = MemoryRegistry::new();
    registry.register(test_service("a")).expect("register a");
    registry.register(test_service("b")).expect("register b");

    let all = registry.list();
    assert_eq!(all.len(), 2);
}

#[test]
fn unregister_removes() {
    let mut registry = MemoryRegistry::new();
    registry.register(test_service("gone")).expect("register");
    registry.unregister("gone").expect("unregister");

    let err = registry
        .get("gone")
        .expect_err("get after unregister must fail");
    assert!(matches!(err, Error::ServiceNotFound(_)));
}

#[test]
fn registry_rejects_duplicate_and_keeps_first() {
    let mut registry = MemoryRegistry::default();
    registry.register(test_service("dup")).expect("first register");
    let mut second = test_service("dup");
    second.target_port = 9090;
    let err = registry.register(second).expect_err("duplicate must fail");
    assert_eq!(err, Error::AlreadyExists("dup".into()));
    assert_eq!(registry.get("dup").unwrap().target_port, 8080);
    assert_eq!(registry.list().len(), 1);
}

#[test]
fn registry_unregister_missing_errors() {
    let mut registry = MemoryRegistry::new();
    let err = registry.unregister("ghost").expect_err("missing must fail");
    assert_eq!(err, Error::ServiceNotFound("ghost".into()));
    let err = registry.get("ghost").expect_err("missing must fail");
    assert_eq!(err, Error::ServiceNotFound("ghost".into()));
}

#[test]
fn registry_unregister_then_register_again() {
    let mut registry = MemoryRegistry::new();
    registry.register(test_service("a")).unwrap();
    registry.register(test_service("b")).unwrap();
    registry.register(test_service("c")).unwrap();
    registry.unregister("b").unwrap();
    let names: Vec<String> = registry.list().into_iter().map(|s| s.name).collect();
    assert_eq!(names.len(), 2);
    assert!(names.contains(&"a".to_owned()));
    assert!(names.contains(&"c".to_owned()));
    registry.register(test_service("b")).expect("name is free again");
    assert_eq!(registry.list().len(), 3);
}

// -- local host ---------------------------------------------------------------

#[test]
fn create_and_list() {
    let mut host = LocalOnionHost::new();
    let svc = host
        .create_service(&test_config("web"))
        .expect("create must succeed");
    assert_eq!(svc.name, "web");
    assert_eq!(svc.status, ServiceStatus::Stopped);

    let status = host.service_status("web").expect("status must succeed");
    assert_eq!(status, ServiceStatus::Stopped);
}

#[test]
fn host_start_stop_lifecycle() {
    let mut host = LocalOnionHost::new();
    host.create_service(&test_config("api")).expect("create");

    host.start_service("api").expect("start");
    assert_eq!(host.service_status("api").unwrap(), ServiceStatus::Running);

    host.stop_service("api").expect("stop");
    assert_eq!(host.service_status("api").unwrap(), ServiceStatus::Stopped);
}

#[test]
fn duplicate_name_rejected() {
    let mut host = LocalOnionHost::new();
    host.create_service(&test_config("dup")).expect("first create");

    let err = host
        .create_service(&test_config("dup"))
        .expect_err("duplicate must fail");
    assert!(
        matches!(err, Error::AlreadyExists(ref n) if n == "dup"),
        "expected AlreadyExists, got {err:?}"
    );
}

#[test]
fn local_host_address_is_name_dot_onion() {
    let mut host = LocalOnionHost::default();
    let at = Timestamp::from_unix(1_700_000_000, 5).unwrap();
    let svc = host.create_service_at(&test_config("web"), at).unwrap();
    assert_eq!(svc.onion_address, "web.onion");
    assert_eq!(svc.target_addr, "127.0.0.1");
    assert_eq!(svc.target_port, 8080);
    assert_eq!(svc.created_at, at);
}

#[test]
fn local_host_missing_service_errors() {
    let mut host = LocalOnionHost::new();
    assert_eq!(
        host.start_service("ghost").unwrap_err(),
        Error::ServiceNotFound("ghost".into())
    );
    assert_eq!(
        host.stop_service("ghost").unwrap_err(),
        Error::ServiceNotFound("ghost".into())
    );
    assert_eq!(
        host.service_status("ghost").unwrap_err(),
        Error::ServiceNotFound("ghost".into())
    );
}

#[test]
fn local_host_status_change_leaves_others() {
    let mut host = LocalOnionHost::new();
    host.create_service(&test_config("one")).unwrap();
    host.create_service(&test_config("two")).unwrap();
    host.start_service("one").unwrap();
    host.start_service("one").unwrap();
    assert_eq!(host.service_status("one").unwrap(), ServiceStatus::Running);
    assert_eq!(host.service_status("two").unwrap(), ServiceStatus::Stopped);
}

// -- key-backed host ----------------------------------------------------------

fn is_base32(c: char) -> bool {
    c.is_ascii_lowercase() || ('2'..='7').contains(&c)
}

#[test]
fn create_generates_valid_onion() {
    let mut host = TorOnionHost::new();
    let svc = host
        .create_service(&test_config("web"))
        .expect("create must succeed");

    assert!(
        svc.onion_address.ends_with(".onion"),
        "address = {}",
        svc.onion_address
    );
    let base = svc.onion_address.strip_suffix(".onion").unwrap();
    assert_eq!(base.len(), 56, "base32 portion must be 56 chars, got {}", base.len());
    assert!(base.chars().all(is_base32), "invalid base32 chars in {base}");
}

#[test]
fn tor_host_start_stop_lifecycle() {
    let mut host = TorOnionHost::new();
    host.create_service(&test_config("api")).expect("create");

    assert_eq!(
        host.service_status("api").unwrap(),
        ServiceStatus::Stopped,
        "initial status must be Stopped"
    );

    host.start_service("api").expect("start");
    assert_eq!(
        host.service_status("api").unwrap(),
        ServiceStatus::Running,
        "after start must be Running"
    );

    host.stop_service("api").expect("stop");
    assert_eq!(
        host.service_status("api").unwrap(),
        ServiceStatus::Stopped,
        "after stop must be Stopped"
    );
}

#[test]
fn status_tracking() {
    let mut host = TorOnionHost::new();
    host.create_service(&test_config("tracker")).expect("create");

    assert_eq!(
        host.service_status("tracker").unwrap(),
        ServiceStatus::Stopped
    );

    host.start_service("tracker").expect("start 1");
    host.start_service("tracker").expect("start 2");
    assert_eq!(
        host.service_status("tracker").unwrap(),
        ServiceStatus::Running
    );

    let err = host
        .service_status("ghost")
        .expect_err("missing must fail");
    assert!(matches!(err, Error::ServiceNotFound(_)));
}

#[test]
fn tor_host_duplicate_rejected() {
    let mut host = TorOnionHost::new();
    host.create_service(&test_config("dup")).expect("first create");

    let err = host
        .create_service(&test_config("dup"))
        .expect_err("duplicate must fail");
    assert!(
        matches!(err, Error::AlreadyExists(ref n) if n == "dup"),
        "expected AlreadyExists, got {err:?}"
    );
}

#[test]
fn each_service_gets_unique_address() {
    let mut host = TorOnionHost::new();
    let svc1 = host.create_service(&test_config("svc1")).expect("create svc1");
    let svc2 = host.create_service(&test_config("svc2")).expect("create svc2");

    assert_ne!(
        svc1.onion_address, svc2.onion_address,
        "different services must get different .onion addresses"
    );
}

#[test]
fn tor_host_address_is_that_of_its_key() {
    let mut host = TorOnionHost::default();
    let svc = host.create_service(&test_config("keyed")).unwrap();
    let key = host.signing_key("keyed").expect("key is kept");
    assert_eq!(kakureyado::onion::onion_address_for_secret(&key), svc.onion_address);
    assert!(host.signing_key("ghost").is_none());
}

// -- start command ------------------------------------------------------------

#[test]
fn start_command_registers_and_runs() {
    let mut host = LocalOnionHost::new();
    let mut registry = MemoryRegistry::new();
    let status = start_command(
        &mut host,
        &mut registry,
        "web".into(),
        "127.0.0.1".into(),
        8080,
        80,
    )
    .expect("start must succeed");
    assert_eq!(status, ServiceStatus::Running);
    assert_eq!(host.service_status("web").unwrap(), ServiceStatus::Running);
    let registered = registry.get("web").unwrap();
    assert_eq!(registered.status, ServiceStatus::Stopped);
    assert_eq!(registered.onion_address, "web.onion");
}

#[test]
fn start_command_twice_is_refused() {
    let mut host = LocalOnionHost::new();
    let mut registry = MemoryRegistry::new();
    start_command(&mut host, &mut registry, "web".into(), "127.0.0.1".into(), 8080, 80).unwrap();
    let err = start_command(&mut host, &mut registry, "web".into(), "10.0.0.1".into(), 9, 80)
        .unwrap_err();
    assert_eq!(err, Error::AlreadyExists("web".into()));
    assert_eq!(registry.list().len(), 1);
    assert_eq!(registry.get("web").unwrap().target_addr, "127.0.0.1");
}

#[test]
fn start_command_name_taken_in_registry() {
    let mut host = LocalOnionHost::new();
    let mut registry = MemoryRegistry::new();
    registry.register(test_service("web")).unwrap();
    let err = start_command(&mut host, &mut registry, "web".into(), "127.0.0.1".into(), 8080, 80)
        .unwrap_err();
    assert_eq!(err, Error::AlreadyExists("web".into()));
    // The host keeps the service it created, still stopped.
    assert_eq!(host.service_status("web").unwrap(), ServiceStatus::Stopped);
}
