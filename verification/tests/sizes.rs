use iocore::size::{ByteUnit, Size};

#[test]
fn test_unit_scale() {
    assert_eq!(ByteUnit::Byte.scale(), 1);
    assert_eq!(ByteUnit::Kilo.scale(), 2);
    assert_eq!(ByteUnit::Mega.scale(), 3);
    assert_eq!(ByteUnit::Giga.scale(), 4);
    assert_eq!(ByteUnit::Tera.scale(), 5);
    assert_eq!(ByteUnit::Peta.scale(), 6);
}

#[test]
fn test_size_unit() {
    assert_eq!(ByteUnit::fit(Size::from(1)), (ByteUnit::Byte, None));
    assert_eq!(ByteUnit::fit(Size::from(1024)), (ByteUnit::Kilo, None));
    assert_eq!(ByteUnit::fit(Size::from(2037)), (ByteUnit::Kilo, Some(1013)));
    assert_eq!(ByteUnit::fit(Size::from(1024 * 1024)), (ByteUnit::Mega, None));
    assert_eq!(ByteUnit::fit(Size::from(1024 * 1024 + 37)), (ByteUnit::Mega, Some(37)));
    assert_eq!(ByteUnit::fit(Size::from(1024 * 1024 * 1024)), (ByteUnit::Giga, None));
    assert_eq!(ByteUnit::fit(Size::from(1024 * 1024 * 1024 + 37)), (ByteUnit::Giga, Some(37)));
    assert_eq!(ByteUnit::fit(Size::from(1024 * 1024 * 1024 * 1024)), (ByteUnit::Tera, None));
    assert_eq!(
        ByteUnit::fit(Size::from(1024 * 1024 * 1024 * 1024 * 1024)),
        (ByteUnit::Peta, None)
    );
    assert_eq!(
        ByteUnit::fit(Size::from(1024 * 1024 * 1024 * 1024 * 1024 + 37)),
        (ByteUnit::Peta, Some(37))
    );
}
