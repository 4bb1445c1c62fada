//! The calendar's entry points that need no astronomy.

use vstd::prelude::*;
use crate::gz::GanZhi;

verus! {

/// The branch of an hour of the day: one branch for every two hours from
/// midnight. With `is_zao_wan_zi_shi` the last hour of the day is given the
/// first branch, which is the branch it has anyway.
pub open spec fn hour_branch(hour: int, is_zao_wan_zi_shi: bool) -> int {
    if is_zao_wan_zi_shi && hour == 23 {
        0
    } else {
        (hour / 2) % 12
    }
}

/// The stem and the branch of an hour, from the stem of its day.
pub fn get_shi_gz(day_tian_gan: u8, hour: u8, is_zao_wan_zi_shi: bool) -> (gz: GanZhi)
    requires
        day_tian_gan <= 122,
    ensures
        gz.di_zhi == hour_branch(hour as int, is_zao_wan_zi_shi),
        gz.tian_gan == (day_tian_gan * 2 + gz.di_zhi) % 10,
{
    let mut shi_zhi: u8 = (hour / 2) % 12;
    if is_zao_wan_zi_shi && hour == 23 {
        shi_zhi = 0;
    }
    let shi_gan: u8 = (day_tian_gan * 2 + shi_zhi) % 10;
    match GanZhi::new(shi_gan, shi_zhi) {
        Ok(gz) => gz,
        Err(_) => GanZhi { tian_gan: shi_gan, di_zhi: shi_zhi },
    }
}

} // verus!
