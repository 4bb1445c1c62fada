use sxtwl_rs::ganzhi::{DiZhi, GanZhi, TianGan};

#[test]
fn test_tiangan_basics() {
    assert_eq!(TianGan::Jia.as_str(), "甲");
    assert_eq!(TianGan::Yi.as_str(), "乙");
    assert_eq!(TianGan::Gui.as_str(), "癸");

    assert_eq!(TianGan::Jia.to_index(), 0);
    assert_eq!(TianGan::Geng.to_index(), 6);
    assert_eq!(TianGan::Gui.to_index(), 9);

    assert!(matches!(TianGan::from_index(0), TianGan::Jia));
    assert!(matches!(TianGan::from_index(5), TianGan::Ji));
    assert!(matches!(TianGan::from_index(15), TianGan::Ji));

    assert_eq!(TianGan::Bing.to_string(), "丙");
}

#[test]
fn test_dizhi_basics() {
    assert_eq!(DiZhi::Zi.as_str(), "子");
    assert_eq!(DiZhi::Chou.as_str(), "丑");
    assert_eq!(DiZhi::Hai.as_str(), "亥");

    assert_eq!(DiZhi::Zi.to_index(), 0);
    assert_eq!(DiZhi::Wu.to_index(), 6);
    assert_eq!(DiZhi::Hai.to_index(), 11);

    assert!(matches!(DiZhi::from_index(0), DiZhi::Zi));
    assert!(matches!(DiZhi::from_index(6), DiZhi::Wu));
    assert!(matches!(DiZhi::from_index(18), DiZhi::Wu));

    assert_eq!(DiZhi::Mao.to_string(), "卯");
}

#[test]
fn test_ganzhi_from_index() {
    let gz1 = GanZhi::from_index(0);
    assert!(matches!(gz1.0, TianGan::Jia));
    assert!(matches!(gz1.1, DiZhi::Zi));
    assert_eq!(gz1.as_str(), "甲子");

    let gz2 = GanZhi::from_index(59);
    assert!(matches!(gz2.0, TianGan::Gui));
    assert!(matches!(gz2.1, DiZhi::Hai));
    assert_eq!(gz2.as_str(), "癸亥");

    let gz3 = GanZhi::from_index(35);
    assert!(matches!(gz3.0, TianGan::Ji));
    assert!(matches!(gz3.1, DiZhi::Hai));
    assert_eq!(gz3.as_str(), "己亥");

    let gz4 = GanZhi::from_index(60);
    assert!(matches!(gz4.0, TianGan::Jia));
    assert!(matches!(gz4.1, DiZhi::Zi));
}

#[test]
fn test_ganzhi_to_index() {
    let gz1 = GanZhi(TianGan::Jia, DiZhi::Zi);
    assert_eq!(gz1.to_index(), 0);
    assert_eq!(gz1.as_str(), "甲子");

    let gz2 = GanZhi(TianGan::Yi, DiZhi::Chou);
    assert_eq!(gz2.to_index(), 1);
    assert_eq!(gz2.as_str(), "乙丑");

    let gz3 = GanZhi(TianGan::Gui, DiZhi::Hai);
    assert_eq!(gz3.to_index(), 59);
    assert_eq!(gz3.as_str(), "癸亥");

    let gz4 = GanZhi(TianGan::Ji, DiZhi::Hai);
    assert_eq!(gz4.to_index(), 35);
    assert_eq!(gz4.as_str(), "己亥");
}

#[test]
fn test_ganzhi_consistency() {
    for i in 0..60 {
        let gz = GanZhi::from_index(i);
        let calculated_index = gz.to_index();
        assert_eq!(
            i, calculated_index,
            "干支索引不一致: 期望 {}, 实际 {}",
            i, calculated_index
        );

        let expected_gan = TianGan::from_index(i % 10);
        let expected_zhi = DiZhi::from_index(i % 12);
        assert!(matches!(gz.0, _ if gz.0.to_index() == expected_gan.to_index()));
        assert!(matches!(gz.1, _ if gz.1.to_index() == expected_zhi.to_index()));
    }
}

#[test]
fn test_ganzhi_from_year() {
    let gz1 = GanZhi::from_lunar_year(1984);
    assert!(matches!(gz1.0, TianGan::Jia));
    assert!(matches!(gz1.1, DiZhi::Zi));
    assert_eq!(gz1.as_str(), "甲子");

    let gz2 = GanZhi::from_lunar_year(2023);
    assert!(matches!(gz2.0, TianGan::Gui));
    assert!(matches!(gz2.1, DiZhi::Mao));
    assert_eq!(gz2.as_str(), "癸卯");

    let gz3 = GanZhi::from_lunar_year(2000);
    assert!(matches!(gz3.0, TianGan::Geng));
    assert!(matches!(gz3.1, DiZhi::Chen));
    assert_eq!(gz3.as_str(), "庚辰");

    let gz4 = GanZhi::from_lunar_year(-721);
    assert_eq!(gz4.as_str(), "己未");

    let gz5 = GanZhi::from_lunar_year(2050);
    assert_eq!(gz5.as_str(), "庚午");
}

#[test]
fn test_ganzhi_display() {
    let gz = GanZhi(TianGan::Bing, DiZhi::Yin);
    assert_eq!(gz.to_string(), "丙寅");

    let gz2 = GanZhi(TianGan::Xin, DiZhi::You);
    assert_eq!(gz2.to_string(), "辛酉");
}

#[test]
fn ganzhi_test_edge_cases() {
    let max_gz = GanZhi::from_index(59);
    assert_eq!(max_gz.to_index(), 59);

    let overflow_gz = GanZhi::from_index(100);
    assert_eq!(overflow_gz.to_index(), 40);

    let ancient_gz = GanZhi::from_lunar_year(-1000);
    assert!(!ancient_gz.as_str().is_empty());
}

#[test]
fn pair_outside_the_cycle_counts_as_first() {
    let odd = GanZhi(TianGan::Jia, DiZhi::Chou);
    assert_eq!(odd.to_index(), 0);
    assert_eq!(odd.as_str(), "甲子");
}

#[test]
fn year_pairs_extremes() {
    assert_eq!(GanZhi::from_lunar_year(i32::MIN).to_index(), GanZhi::from_lunar_year(i32::MIN + 60).to_index());
    assert_eq!(GanZhi::from_lunar_year(1983).as_str(), "癸亥");
    assert_eq!(GanZhi::from_lunar_year(i32::MAX).as_str(), GanZhi::from_lunar_year(i32::MAX - 60).as_str());
}
