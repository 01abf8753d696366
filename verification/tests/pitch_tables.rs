//! The hardware-measured pitch reference tables: the formula-derived
//! reload must match each measured value to within one unit.
use wahdio::pitch::nth_timer_reload;

fn check_tables() {
    let timer_reloads: Vec<Vec<u16>> = vec![
        vec![63898, 63990, 64077, 64159, 64236, 64309, 64378, 64443, 64504, 64562, 64617, 64669, 64717, 64763, 64807, 64848, 64886, 64923, 64957, 64990, 65020, 65049, 65077, 65103, 65127],
        vec![63496, 63611, 63719, 63821, 63917, 64008, 64094, 64175, 64251, 64324, 64392, 64456, 64516, 64574, 64628, 64679, 64727, 64772, 64815, 64856, 64894, 64930, 64964, 64996, 65026],
        vec![63922, 64013, 64099, 64179, 64255, 64327, 64395, 64459, 64520, 64577, 64631, 64682, 64729, 64775, 64818, 64858, 64896, 64932, 64966, 64998, 65028, 65057, 65084, 65109, 65133],
        vec![63516, 63630, 63737, 63838, 63933, 64023, 64108, 64188, 64264, 64335, 64403, 64466, 64526, 64583, 64637, 64687, 64735, 64780, 64822, 64862, 64900, 64936, 64970, 65001, 65031],
        vec![64174, 64251, 64323, 64391, 64455, 64516, 64573, 64627, 64678, 64727, 64772, 64815, 64855, 64894, 64930, 64964, 64996, 65026, 65055, 65082, 65107, 65132, 65154, 65176, 65196],
        vec![64178, 64255, 64327, 64395, 64459, 64519, 64576, 64630, 64681, 64729, 64774, 64817, 64857, 64896, 64932, 64966, 64998, 65028, 65056, 65083, 65109, 65133, 65155, 65177, 65197],
        vec![63803, 63900, 63992, 64079, 64161, 64238, 64311, 64380, 64445, 64506, 64564, 64618, 64670, 64718, 64764, 64808, 64849, 64887, 64924, 64958, 64991, 65021, 65050, 65077, 65103],
        vec![61448, 61678, 61895, 62099, 62292, 62474, 62646, 62808, 62961, 63106, 63242, 63371, 63492, 63607, 63716, 63818, 63914, 64005, 64091, 64172, 64249, 64321, 64389, 64454, 64514],
        vec![63504, 63619, 63726, 63828, 63924, 64014, 64100, 64180, 64256, 64328, 64396, 64460, 64520, 64578, 64631, 64682, 64730, 64775, 64818],
        vec![64170, 64246, 64319, 64387, 64452, 64512],
        vec![63900, 63992, 64079, 64161, 64238, 64311, 64380, 64445, 64506, 64564, 64618, 64670, 64718, 64764, 64808, 64849, 64887, 64924, 64958, 64991, 65021, 65050, 65077, 65103, 65127],
        vec![63528, 63641, 63748, 63848, 63943, 64032, 64117, 64196, 64272, 64343, 64410, 64473, 64532, 64589, 64642, 64692, 64740, 64784, 64827, 64866, 64904, 64940, 64973, 65005, 65034],
        vec![64519, 64577, 64630, 64681, 64729, 64775, 64817, 64858, 64896, 64932, 64966, 64998, 65028, 65057, 65083, 65109, 65133, 65156, 65177, 65197, 65216, 65234, 65251, 65267, 65282],
        vec![64450, 64511, 64568, 64623, 64674, 64722, 64768, 64811, 64852, 64890, 64927, 64961, 64993, 65024, 65052, 65080, 65105, 65129, 65152, 65174, 65194, 65213, 65232, 65249],
        vec![63828, 63924, 64014, 64100, 64180, 64256, 64328, 64396, 64460, 64520, 64578, 64631, 64682, 64730, 64775, 64818, 64858, 64896, 64932, 64966, 64998, 65028, 65057, 65084, 65109],
        vec![63502, 63617, 63724, 63826, 63922, 64013, 64098, 64179, 64255, 64327, 64395, 64459, 64519, 64577, 64630, 64681, 64729, 64775, 64817, 64858, 64896, 64932, 64966, 64998, 65028],
        vec![64088, 64170, 64246, 64319, 64387, 64452, 64512],
        vec![64170, 64246, 64319, 64387, 64452, 64512, 64570, 64624, 64675, 64724, 64769, 64812, 64853, 64891, 64928, 64962, 64994, 65024, 65053, 65080, 65106, 65130, 65153, 65174, 65195],
        vec![63488, 63603, 63712, 63814, 63911, 64002, 64088, 64170, 64246, 64319, 64387, 64452],
        vec![64002, 64088, 64170, 64246, 64319, 64387, 64452, 64512, 64570, 64624, 64675, 64724, 64769],
        vec![64171, 64248, 64320, 64389, 64453],
        vec![64171, 64248],
        vec![64175, 64252],
        vec![64178, 64255],
        vec![64179, 64256],
        vec![64176, 64253],
        vec![64173, 64250, 64322, 64390, 64455, 64515],
        vec![63472, 63588, 63697, 63800, 63898, 63990, 64077, 64159, 64236, 64309, 64378, 64443, 64504, 64562, 64617, 64668, 64717, 64763, 64807, 64848, 64886, 64923, 64957, 64990, 65020],
        vec![63494, 63609, 63717, 63819, 63916, 64007, 64093, 64174, 64250, 64322, 64390, 64455, 64515, 64573, 64627, 64678, 64726, 64772, 64815, 64855, 64893, 64929, 64963, 64996, 65026],
        vec![63488, 63603, 63712, 63814, 63911, 64002, 64088, 64170, 64246, 64319, 64387, 64452, 64512, 64570, 64624, 64675, 64724, 64769, 64812, 64853, 64891, 64928, 64962, 64994, 65024],
        vec![64004, 64090, 64171, 64248, 64320, 64389],
        vec![64171, 64248, 64320, 64389, 64453, 64514],
    ];
    for timer_reload_list in timer_reloads {
        for (note, &timer_reload) in timer_reload_list.iter().enumerate() {
            assert!(
                nth_timer_reload(timer_reload_list[0], note as i32).abs_diff(timer_reload) <= 1
            );
        }
    }
}

#[test]
fn audio_test_timer_reload() {
    check_tables();
}

#[test]
fn split_test_timer_reload() {
    check_tables();
}

#[test]
fn micro_reload_matches_whole_steps() {
    for base in [63898u16, 63496, 61448, 22792] {
        for off in 0..12i64 {
            let whole = nth_timer_reload(base, off as i32);
            let micro = wahdio::pitch::nth_micro_timer_reload(base, off * 0x1_0000);
            assert_eq!(whole, micro);
        }
    }
    assert_eq!(wahdio::pitch::nth_micro_timer_reload(63898, 0), 63898);
}

#[test]
fn measured_psg_tables() {
    assert_eq!(wahdio::pitch::nth_timer_reload_ting_ting(0), 62868);
    assert_eq!(wahdio::pitch::nth_timer_reload_ting_ting(24), 64872);
    assert_eq!(wahdio::pitch::nth_timer_reload_bong_bong(0), 22792);
    assert_eq!(wahdio::pitch::nth_timer_reload_ding_ding(12), 60196);
    assert_eq!(wahdio::pitch::nth_timer_reload_bing_bing(1), 42892);
    assert_eq!(wahdio::pitch::nth_timer_reload_bling_bling(24), 63016);
}
