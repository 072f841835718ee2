use osgood_v8::platform::PlatformRegistry;
use osgood_v8::Platform;

#[test]
fn get_one_platform() {
    let mut registry = PlatformRegistry::new();
    assert!(!registry.is_initialized());

    let (platform, init) = Platform::get(&mut registry);
    assert!(init);
    assert!(registry.is_initialized());
    assert!(registry.holds(&platform));

    let teardown = platform.release(&mut registry);
    assert!(teardown);
    assert!(!registry.is_initialized());
}

#[test]
fn get_multiple_platforms() {
    let mut registry = PlatformRegistry::new();

    let (platform1, init1) = Platform::get(&mut registry);
    let (platform2, init2) = Platform::get(&mut registry);
    assert!(init1);
    assert!(!init2);
    assert!(registry.holds(&platform1));
    assert!(registry.holds(&platform2));

    assert!(!platform1.release(&mut registry));
    assert!(registry.is_initialized());
    assert!(platform2.release(&mut registry));
    assert!(!registry.is_initialized());
}

#[test]
fn init_multiple_platforms() {
    let mut registry = PlatformRegistry::new();

    {
        let (platform1, init) = Platform::get(&mut registry);
        assert!(init);
        assert!(platform1.release(&mut registry));
    }

    {
        let (platform2, init) = Platform::get(&mut registry);
        assert!(init);
        assert!(registry.holds(&platform2));
        assert!(platform2.release(&mut registry));
    }
}

#[test]
fn platform_handle_of_an_earlier_generation_is_not_held() {
    let mut first = PlatformRegistry::new();
    let mut second = PlatformRegistry::new();

    let (old, _) = Platform::get(&mut first);
    assert!(old.release(&mut first));
    let (stale, _) = Platform::get(&mut second);
    let (fresh, init) = Platform::get(&mut first);

    assert!(init);
    assert!(first.holds(&fresh));
    assert!(!first.holds(&stale));
    assert!(second.holds(&stale));
}

#[test]
fn platform_registry_has_room() {
    let mut registry = PlatformRegistry::new();
    assert!(registry.has_room());
    let (platform, _) = Platform::get(&mut registry);
    assert!(registry.has_room());
    assert!(platform.release(&mut registry));
}

#[test]
fn platform_third_handle_joins_the_first() {
    let mut registry = PlatformRegistry::new();
    let (a, init_a) = Platform::get(&mut registry);
    let (b, init_b) = Platform::get(&mut registry);
    let (c, init_c) = Platform::get(&mut registry);
    assert_eq!((init_a, init_b, init_c), (true, false, false));
    assert!(!b.release(&mut registry));
    assert!(!a.release(&mut registry));
    assert!(registry.holds(&c));
    assert!(c.release(&mut registry));
}
