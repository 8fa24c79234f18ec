use smart_home::devices::DeviceInfoProvider;
use smart_home::devices::SmartSocket;
use smart_home::devices::SmartThermometer;

#[test]
fn socket_works() {
    let mut socket = SmartSocket::new("Test");
    assert_eq!(socket.enabled, false);
    assert_eq!(socket.capacity, 0);

    socket.set_capacity(100);
    socket.toggle();
    assert_eq!(socket.capacity, 100);
    assert_eq!(socket.enabled, true);

    let info = socket.info();
    assert_eq!(info, "device Test is enabled and have capacity 100");
}

#[test]
fn thermo_works() {
    let mut thermo = SmartThermometer::new("Test");
    assert_eq!(thermo.temperature, 0);

    thermo.set_temperature(100);
    assert_eq!(thermo.temperature, 100);
    assert_eq!(thermo.name, "Test");

    let info = thermo.info();
    assert_eq!(info, "device Test showing 100 temperature");
}

#[test]
fn socket_disabled_info() {
    let mut socket = SmartSocket::new("lamp");
    socket.set_capacity(7);
    assert_eq!(socket.info(), "device lamp is disabled and have capacity 7");
    assert_eq!(socket.name(), "lamp");
    assert_eq!(socket.capacity(), 7);
}

#[test]
fn thermo_negative_info() {
    let mut thermo = SmartThermometer::new("out");
    thermo.set_temperature(-15);
    assert_eq!(thermo.info(), "device out showing -15 temperature");
    assert_eq!(thermo.name(), "out");
}
