use pixrs::{IllustType, Restriction};

#[test]
fn illust_type_codes() {
    assert_eq!(IllustType::Illustration.as_u8(), 0);
    assert_eq!(IllustType::Manga.as_u8(), 1);
    assert_eq!(IllustType::Animation.as_u8(), 2);
    assert_eq!(IllustType::from_u8(0), Some(IllustType::Illustration));
    assert_eq!(IllustType::from_u8(1), Some(IllustType::Manga));
    assert_eq!(IllustType::from_u8(2), Some(IllustType::Animation));
    assert_eq!(IllustType::from_u8(3), None);
    assert_eq!(IllustType::from_u8(255), None);
}

#[test]
fn restriction_codes() {
    assert_eq!(Restriction::General.as_u8(), 0);
    assert_eq!(Restriction::R18.as_u8(), 1);
    assert_eq!(Restriction::R18G.as_u8(), 2);
    assert_eq!(Restriction::from_u8(0), Some(Restriction::General));
    assert_eq!(Restriction::from_u8(1), Some(Restriction::R18));
    assert_eq!(Restriction::from_u8(2), Some(Restriction::R18G));
    assert_eq!(Restriction::from_u8(3), None);
    assert_eq!(Restriction::from_u8(255), None);
}

#[test]
fn codes_read_back_as_the_same_variant() {
    for code in 0u8..=255 {
        if let Some(kind) = IllustType::from_u8(code) {
            assert_eq!(kind.as_u8(), code);
        }
        if let Some(restriction) = Restriction::from_u8(code) {
            assert_eq!(restriction.as_u8(), code);
        }
    }
}
