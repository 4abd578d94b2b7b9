use lib::arch::arm64::cpu::ArchContext;
use lib::arch::arm64::setup::parse_parameters;
use lib::drivers::{
    finish_round, init_platform_drivers, match_driver, DeviceNode, DriverInitError, DriverRegistry, PlatformDriver,
    StatusValue,
};

fn node(path: &str, compatible: &[&str], status: Option<StatusValue>) -> DeviceNode {
    DeviceNode {
        path: path.to_string(),
        compatible: Some(compatible.iter().map(|s| s.to_string()).collect()),
        status,
    }
}

#[test]
fn registry_add_get_remove() {
    let mut r: DriverRegistry<u32> = DriverRegistry::new();
    let a = "/soc/a".to_string();
    let b = "/soc/b".to_string();
    assert_eq!(r.get_device(&a), None);
    r.add_device(a.clone(), 1);
    r.add_device(b.clone(), 2);
    assert_eq!(r.get_device(&a), Some(&1));
    assert_eq!(r.get_device_opaque(&b), Some(&2));
    r.add_device(a.clone(), 3);
    assert_eq!(r.get_device(&a), Some(&3));
    assert_eq!(r.remove_device(&a), Some(3));
    assert_eq!(r.get_device(&a), None);
    assert_eq!(r.remove_device(&a), None);
    assert_eq!(r.get_device(&b), Some(&2));
}

#[test]
fn match_driver_takes_first_supported_compatible() {
    let drivers = vec!["brcm,bcm2836-l1-intc".to_string(), "brcm,bcm2835-aux-uart".to_string()];
    let n = node("/soc/serial", &["brcm,foo", "brcm,bcm2835-aux-uart", "brcm,bcm2836-l1-intc"], None);
    assert_eq!(match_driver(&n, &drivers), Some(1));
    let none = node("/soc/x", &["vendor,unknown"], None);
    assert_eq!(match_driver(&none, &drivers), None);
    let bare = DeviceNode { path: "/x".to_string(), compatible: None, status: None };
    assert_eq!(match_driver(&bare, &drivers), None);
}

struct Scripted {
    compatible: &'static str,
    outcome: Result<(), DriverInitError>,
}

impl PlatformDriver for Scripted {
    fn compatible(&self) -> &str {
        self.compatible
    }

    fn try_init(&self, _node: &DeviceNode) -> Result<(), DriverInitError> {
        self.outcome
    }
}

#[test]
fn init_platform_drivers_retries_until_no_progress() {
    let drivers = vec![
        Scripted { compatible: "ok", outcome: Ok(()) },
        Scripted { compatible: "retry", outcome: Err(DriverInitError::Retry) },
        Scripted { compatible: "fail", outcome: Err(DriverInitError::DeviceFailed) },
    ];
    let nodes = vec![
        node("/a", &["ok"], None),
        node("/b", &["retry"], Some(StatusValue::Okay)),
        node("/c", &["fail"], None),
        node("/d", &["retry"], Some(StatusValue::Disabled)),
        node("/e", &["unknown"], None),
    ];
    let waiting = init_platform_drivers(nodes, &drivers);
    assert_eq!(waiting.len(), 1);
    assert_eq!(waiting[0].path, "/b");
}

#[test]
fn init_platform_drivers_skips_reserved_and_failed_nodes() {
    let drivers = vec![Scripted { compatible: "retry", outcome: Err(DriverInitError::Retry) }];
    let nodes = vec![
        node("/r", &["retry"], Some(StatusValue::Reserved)),
        node("/f", &["retry"], Some(StatusValue::Fail("broken".to_string()))),
    ];
    assert!(init_platform_drivers(nodes, &drivers).is_empty());
}

#[test]
fn early_console_choice() {
    let drivers = vec!["brcm,bcm2835-aux-uart".to_string()];
    let uart = node("/soc/serial@7e215040", &["brcm,bcm2835-aux-uart"], None);
    assert_eq!(parse_parameters(Some(&uart), &drivers), Some(0));
    let disabled = node("/soc/serial@7e215040", &["brcm,bcm2835-aux-uart"], Some(StatusValue::Disabled));
    assert_eq!(parse_parameters(Some(&disabled), &drivers), None);
    assert_eq!(parse_parameters(None, &drivers), None);
}

#[test]
fn task_context_stack_alignment() {
    let c = ArchContext::new(0x8_0000 + 0x1007, 0x100, 0x200, 0x300);
    assert_eq!(c.stack_pointer, 0x8_0ff0);
    assert_eq!(c.stack_pointer % 16, 0);
    assert_eq!(c.x19_x30[0], 0x100);
    assert_eq!(c.x19_x30[1], 0x200);
    assert_eq!(c.x19_x30[11], 0x300);
    assert_eq!(c.daif, 0);
}

#[test]
fn finish_round_keeps_retried_nodes_in_order() {
    let nodes = vec![
        node("/a", &["x"], None),
        node("/b", &["x"], None),
        node("/c", &["x"], None),
        node("/d", &["x"], None),
    ];
    let outcomes = vec![
        Some(Err(DriverInitError::Retry)),
        Some(Ok(())),
        None,
        Some(Err(DriverInitError::Retry)),
    ];
    let (still, progress) = finish_round(nodes, &outcomes);
    let paths: Vec<&str> = still.iter().map(|n| n.path.as_str()).collect();
    assert_eq!(paths, vec!["/a", "/d"]);
    assert!(progress);
    let nodes = vec![node("/a", &["x"], None), node("/b", &["x"], None)];
    let outcomes = vec![Some(Err(DriverInitError::DeviceFailed)), Some(Err(DriverInitError::Retry))];
    let (still, progress) = finish_round(nodes, &outcomes);
    assert_eq!(still.len(), 1);
    assert_eq!(still[0].path, "/b");
    assert!(!progress);
}

#[test]
fn init_platform_drivers_without_drivers_leaves_nothing_waiting() {
    let drivers: Vec<Scripted> = Vec::new();
    let nodes = vec![node("/a", &["x"], None), node("/b", &["y"], Some(StatusValue::Okay))];
    assert!(init_platform_drivers(nodes, &drivers).is_empty());
}

#[test]
fn enabled_nodes_keep_compatible_okay_nodes_in_order() {
    let nodes = vec![
        node("/a", &["x"], None),
        node("/b", &["x"], Some(StatusValue::Disabled)),
        DeviceNode { path: "/c".to_string(), compatible: None, status: None },
        node("/d", &["y"], Some(StatusValue::Okay)),
        node("/e", &["y"], Some(StatusValue::Reserved)),
    ];
    let kept = lib::drivers::enabled_nodes(nodes);
    let paths: Vec<&str> = kept.iter().map(|n| n.path.as_str()).collect();
    assert_eq!(paths, vec!["/a", "/d"]);
}
