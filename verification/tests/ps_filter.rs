use wrds::decoder::mode_filter::Error;
use wrds::decoder::ps_filter::PsFilter;

#[test]
fn ps_filter_new_checks_min_count() {
    assert!(PsFilter::<3>::new(3).is_ok());
    assert_eq!(
        PsFilter::<3>::new(4).err(),
        Some(Error::MinCountExceedsSize { min_count: 4, size: 3 })
    );
}

#[test]
fn ps_filter_confirms_once_every_segment_has_a_mode() {
    let mut filter = PsFilter::<3>::new(2).unwrap();
    let name = [[b'A', b'B'], [b'C', b'D'], [b'E', b'F'], [b'G', b'H']];
    for round in 0..3 {
        for (index, chars) in name.iter().enumerate() {
            assert_eq!(filter.confirmed(), None);
            // One corrupted copy of the third segment in the second round.
            if round == 1 && index == 2 {
                filter.push_segment(index, [b'E', b'?']);
            } else {
                filter.push_segment(index, *chars);
            }
        }
    }
    assert_eq!(filter.confirmed(), Some(*b"ABCDEFGH"));
}

#[test]
fn ps_filter_ignores_an_index_beyond_the_name() {
    let mut filter = PsFilter::<1>::new(1).unwrap();
    for index in 0..4 {
        filter.push_segment(index, [b'x', b'y']);
    }
    filter.push_segment(4, [b'!', b'!']);
    filter.push_segment(usize::MAX, [b'!', b'!']);
    assert_eq!(filter.confirmed(), Some(*b"xyxyxyxy"));
}

#[test]
fn ps_filter_without_majority_confirms_nothing() {
    let mut filter = PsFilter::<2>::new(2).unwrap();
    for index in 0..4 {
        filter.push_segment(index, [b'a', b'b']);
        filter.push_segment(index, [b'a', b'c']);
    }
    assert_eq!(filter.confirmed(), None);
}

#[test]
fn ps_filter_without_window_ignores_an_index_beyond_the_name() {
    let mut filter = PsFilter::<0>::new(0).unwrap();
    filter.push_segment(4, [b'a', b'b']);
    filter.push_segment(usize::MAX, [b'a', b'b']);
    assert_eq!(filter.confirmed(), None);
}
