use atri_plugin::abi::plugin::{Lifecycle, PluginInstance, PluginState, PluginVTable};
use atri_plugin::abi::RustStr;

#[test]
fn destroy_on_disable() {
    let mut life = Lifecycle::new(true);
    assert!(life.needs_construct());
    assert_eq!(life.enable(), None);
    life.constructed(0x100);
    assert!(!life.needs_construct());
    assert_eq!(life.enable(), Some(0x100));
    assert_eq!(life.state, PluginState::Enabled(0x100));
    assert_eq!(life.disable(), Some((0x100, true)));
    assert_eq!(life.state, PluginState::Uninstantiated);
    assert!(life.needs_construct());
    assert_eq!(life.enable(), None);
    life.constructed(0x200);
    assert_eq!(life.enable(), Some(0x200));
    assert_eq!(life.disable(), Some((0x200, true)));
    assert_eq!(life.unload(), None);
    assert_eq!(life.state, PluginState::Unloaded);
}

#[test]
fn instance_persists_without_the_flag() {
    let mut life = Lifecycle::new(false);
    life.constructed(0x100);
    let mut destroyed = 0;
    for _ in 0..5 {
        assert_eq!(life.enable(), Some(0x100));
        match life.disable() {
            Some((instance, destroy)) => {
                assert_eq!(instance, 0x100);
                if destroy {
                    destroyed += 1;
                }
            }
            None => panic!("an enabled plugin can be disabled"),
        }
        assert_eq!(life.state, PluginState::Disabled(0x100));
        assert!(!life.needs_construct());
    }
    assert_eq!(destroyed, 0);
    assert_eq!(life.unload(), Some(0x100));
    assert_eq!(life.state, PluginState::Unloaded);
    assert_eq!(life.enable(), None);
    assert_eq!(life.disable(), None);
}

#[test]
fn operations_out_of_turn_change_nothing() {
    let mut life = Lifecycle::new(false);
    assert_eq!(life.disable(), None);
    assert_eq!(life.state, PluginState::Uninstantiated);
    life.constructed(9);
    assert_eq!(life.disable(), None);
    assert_eq!(life.state, PluginState::Constructed(9));
    assert_eq!(life.enable(), Some(9));
    assert_eq!(life.enable(), None);
    assert_eq!(life.state, PluginState::Enabled(9));
}

#[test]
fn unload_before_enable_destroys_the_instance() {
    let mut life = Lifecycle::new(true);
    life.constructed(3);
    assert_eq!(life.unload(), Some(3));
    let mut never = Lifecycle::new(false);
    assert_eq!(never.unload(), None);
}

#[test]
fn descriptor_holds_what_the_plugin_declares() {
    let d = PluginInstance {
        instance: 0x10,
        should_drop: true,
        vtb: PluginVTable { new: 1, enable: 2, disable: 3, drop: 4 },
        abi_ver: 1,
        name: RustStr::from("sample_plugin"),
    };
    let life = Lifecycle::new(d.should_drop);
    assert!(life.should_drop);
    assert_eq!(d.name.as_str(), "sample_plugin");
    assert_eq!(d.vtb.drop, 4);
}
