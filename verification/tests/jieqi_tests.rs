use sxtwl_rs::jieqi::JieQi;

#[test]
fn test_jieqi_from_index() {
    assert_eq!(JieQi::from_index(0), Some(JieQi::LiChun));
    assert_eq!(JieQi::from_index(23), Some(JieQi::DaHan));
    assert_eq!(JieQi::from_index(24), None);
}

#[test]
fn term_index_round_trip_and_names() {
    for i in 0..24u8 {
        let term = JieQi::from_index(i).unwrap();
        assert_eq!(term.to_index(), i);
    }
    assert_eq!(JieQi::from_index(255), None);
    assert_eq!(JieQi::LiChun.name(), "立春");
    assert_eq!(JieQi::DongZhi.name(), "冬至");
    assert_eq!(JieQi::DongZhi.to_index(), 21);
    assert_eq!(JieQi::DaHan.name(), "大寒");
}
