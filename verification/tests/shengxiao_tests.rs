use sxtwl_rs::ganzhi::DiZhi;
use sxtwl_rs::shengxiao::ShengXiao;
use sxtwl_rs::types::LunarDate;

#[test]
fn test_shengxiao_as_str() {
    assert_eq!(ShengXiao::Shu.as_str(), "鼠");
    assert_eq!(ShengXiao::Niu.as_str(), "牛");
    assert_eq!(ShengXiao::Hu.as_str(), "虎");
    assert_eq!(ShengXiao::Tu.as_str(), "兔");
    assert_eq!(ShengXiao::Long.as_str(), "龙");
    assert_eq!(ShengXiao::She.as_str(), "蛇");
    assert_eq!(ShengXiao::Ma.as_str(), "马");
    assert_eq!(ShengXiao::Yang.as_str(), "羊");
    assert_eq!(ShengXiao::Hou.as_str(), "猴");
    assert_eq!(ShengXiao::Ji.as_str(), "鸡");
    assert_eq!(ShengXiao::Gou.as_str(), "狗");
    assert_eq!(ShengXiao::Zhu.as_str(), "猪");
}

#[test]
fn test_shengxiao_to_index() {
    assert_eq!(ShengXiao::Shu.to_index(), 0);
    assert_eq!(ShengXiao::Niu.to_index(), 1);
    assert_eq!(ShengXiao::Hu.to_index(), 2);
    assert_eq!(ShengXiao::Long.to_index(), 4);
    assert_eq!(ShengXiao::Gou.to_index(), 10);
    assert_eq!(ShengXiao::Zhu.to_index(), 11);
}

#[test]
fn test_shengxiao_from_index() {
    assert!(matches!(ShengXiao::from_index(0), ShengXiao::Shu));
    assert!(matches!(ShengXiao::from_index(5), ShengXiao::She));
    assert!(matches!(ShengXiao::from_index(11), ShengXiao::Zhu));
    assert!(matches!(ShengXiao::from_index(12), ShengXiao::Shu));
    assert!(matches!(ShengXiao::from_index(23), ShengXiao::Zhu));
}

#[test]
fn animals_of_years() {
    assert!(matches!(ShengXiao::from_lunar_year(1984), ShengXiao::Shu));
    assert!(matches!(ShengXiao::from_lunar_year(2023), ShengXiao::Tu));
    assert!(matches!(ShengXiao::from_lunar_year(2024), ShengXiao::Long));
    assert!(matches!(ShengXiao::from_lunar_year(2000), ShengXiao::Long));
    assert!(matches!(ShengXiao::from_lunar_year(2050), ShengXiao::Ma));
    assert!(matches!(ShengXiao::from_lunar_year(1983), ShengXiao::Zhu));
    // The animal of a year is the one that goes with the year's branch.
    for year in [-721, -1, 0, 1, 1900, 2023, i32::MIN, i32::MAX] {
        let branch = sxtwl_rs::ganzhi::GanZhi::from_lunar_year(year).1;
        assert_eq!(ShengXiao::from_lunar_year(year), ShengXiao::from_dizhi(branch));
    }
}

#[test]
fn test_shengxiao_dizhi_conversion() {
    assert!(matches!(ShengXiao::from_dizhi(DiZhi::Zi), ShengXiao::Shu));
    assert!(matches!(ShengXiao::from_dizhi(DiZhi::Chou), ShengXiao::Niu));
    assert!(matches!(ShengXiao::from_dizhi(DiZhi::Yin), ShengXiao::Hu));
    assert!(matches!(ShengXiao::from_dizhi(DiZhi::Mao), ShengXiao::Tu));
    assert!(matches!(ShengXiao::from_dizhi(DiZhi::Chen), ShengXiao::Long));
    assert!(matches!(ShengXiao::from_dizhi(DiZhi::Si), ShengXiao::She));
    assert!(matches!(ShengXiao::from_dizhi(DiZhi::Wu), ShengXiao::Ma));
    assert!(matches!(ShengXiao::from_dizhi(DiZhi::Wei), ShengXiao::Yang));
    assert!(matches!(ShengXiao::from_dizhi(DiZhi::Shen), ShengXiao::Hou));
    assert!(matches!(ShengXiao::from_dizhi(DiZhi::You), ShengXiao::Ji));
    assert!(matches!(ShengXiao::from_dizhi(DiZhi::Xu), ShengXiao::Gou));
    assert!(matches!(ShengXiao::from_dizhi(DiZhi::Hai), ShengXiao::Zhu));

    assert!(matches!(ShengXiao::Shu.to_dizhi(), DiZhi::Zi));
    assert!(matches!(ShengXiao::Niu.to_dizhi(), DiZhi::Chou));
    assert!(matches!(ShengXiao::Hu.to_dizhi(), DiZhi::Yin));
    assert!(matches!(ShengXiao::Zhu.to_dizhi(), DiZhi::Hai));
}

#[test]
fn test_shengxiao_display() {
    assert_eq!(ShengXiao::Shu.to_string(), "鼠");
    assert_eq!(ShengXiao::Niu.to_string(), "牛");
    assert_eq!(ShengXiao::Hu.to_string(), "虎");
    assert_eq!(ShengXiao::Long.to_string(), "龙");
    assert_eq!(ShengXiao::Zhu.to_string(), "猪");
}

#[test]
fn test_lunar_date_shengxiao() {
    let lunar = LunarDate {
        year: 2023,
        month: 1,
        day: 1,
        is_leap_month: false,
    };
    assert!(matches!(lunar.shengxiao(), ShengXiao::Tu));

    let lunar2 = LunarDate {
        year: 1984,
        month: 1,
        day: 1,
        is_leap_month: false,
    };
    assert!(matches!(lunar2.shengxiao(), ShengXiao::Shu));
}

#[test]
fn shengxiao_test_edge_cases() {
    let max_index = ShengXiao::from_index(11);
    assert_eq!(max_index.to_index(), 11);

    let overflow_index = ShengXiao::from_index(100);
    assert_eq!(overflow_index.to_index(), 4);

    let ancient_year = ShengXiao::from_lunar_year(-1000);
    assert!(!ancient_year.as_str().is_empty());

    for i in 0..12 {
        let shengxiao = ShengXiao::from_index(i);
        assert_eq!(shengxiao.to_index(), i);
    }
}

#[test]
fn animal_and_branch_go_together() {
    for i in 0..12 {
        let animal = ShengXiao::from_index(i);
        assert_eq!(animal.to_dizhi().to_index(), i);
        assert_eq!(ShengXiao::from_dizhi(DiZhi::from_index(i)), animal);
    }
}
