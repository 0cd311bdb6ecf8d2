use mlx9061x::address::{get_address, MAX_ADDRESS, MIN_ADDRESS};
use mlx9061x::ic::{default_address, Mlx90614, Mlx90615, Variant};
use mlx9061x::register_access::{mlx90614, mlx90615};
use mlx9061x::{Error, Mlx9061x, SlaveAddr};

#[test]
fn default_selector_resolves_to_the_factory_default() {
    let default = default_address::<Mlx90615>();
    let resolved = get_address::<()>(SlaveAddr::Default, default).unwrap();
    assert_eq!(resolved.get(), 0x5B);

    let default = default_address::<Mlx90614>();
    let resolved = get_address::<()>(SlaveAddr::Default, default).unwrap();
    assert_eq!(resolved.get(), 0x5A);
}

#[test]
fn every_legal_explicit_address_resolves_to_itself() {
    for a in 0x01..=0x7Fu8 {
        let resolved = get_address::<()>(SlaveAddr::Alternative(a), default_address::<Mlx90615>());
        assert_eq!(resolved.unwrap().get(), a);
        let resolved = get_address::<()>(SlaveAddr::Alternative(a), default_address::<Mlx90614>());
        assert_eq!(resolved.unwrap().get(), a);
    }
}

#[test]
fn every_illegal_explicit_address_is_rejected() {
    let mut illegal = vec![0u8];
    illegal.extend(0x80..=0xFFu8);
    assert_eq!(illegal.len(), 129);
    for a in illegal {
        let resolved = get_address::<()>(SlaveAddr::Alternative(a), default_address::<Mlx90615>());
        assert!(matches!(resolved, Err(Error::InvalidInputData)));
    }
}

#[test]
fn legal_range_is_seven_bits_without_zero() {
    assert_eq!(MIN_ADDRESS, 1);
    assert_eq!(MAX_ADDRESS, 127);
}

#[test]
fn slave_addr_defaults_to_the_factory_default() {
    assert_eq!(SlaveAddr::default(), SlaveAddr::Default);
}

#[test]
fn factory_defaults_of_the_two_variants() {
    assert_eq!(Mlx90614::registers().default_address, mlx90614::DEV_ADDR);
    assert_eq!(Mlx90615::registers().default_address, mlx90615::DEV_ADDR);
    assert_eq!(mlx90614::DEV_ADDR, 0x5A);
    assert_eq!(mlx90615::DEV_ADDR, 0x5B);
}

#[test]
fn new_mlx90615_takes_the_default_address() {
    let device = Mlx9061x::new_mlx90615::<()>("bus", SlaveAddr::Default, "delay", 10).unwrap();
    assert_eq!(device.address(), 0x5B);
    assert_eq!(device.eeprom_write_delay_ms(), 10);
}

#[test]
fn new_mlx90614_takes_the_default_address() {
    let device = Mlx9061x::new_mlx90614::<()>("bus", SlaveAddr::Default, "delay", 7).unwrap();
    assert_eq!(device.address(), 0x5A);
    assert_eq!(device.eeprom_write_delay_ms(), 7);
}

#[test]
fn new_mlx90615_takes_a_legal_explicit_address() {
    for a in [0x01u8, 0x2A, 0x5B, 0x7F] {
        let device =
            Mlx9061x::new_mlx90615::<()>("bus", SlaveAddr::Alternative(a), "delay", 10).unwrap();
        assert_eq!(device.address(), a);
    }
}

#[test]
fn new_mlx90615_rejects_an_illegal_explicit_address() {
    for a in [0x00u8, 0x80, 0xA5, 0xFF] {
        let device = Mlx9061x::new_mlx90615::<()>("bus", SlaveAddr::Alternative(a), "delay", 10);
        assert!(matches!(device, Err(Error::InvalidInputData)));
    }
}

#[test]
fn new_mlx90614_rejects_an_illegal_explicit_address() {
    for a in [0x00u8, 0x80, 0xFF] {
        let device = Mlx9061x::new_mlx90614::<()>("bus", SlaveAddr::Alternative(a), "delay", 10);
        assert!(matches!(device, Err(Error::InvalidInputData)));
    }
}
