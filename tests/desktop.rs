use winvd::{
    create_desktop, get_current_desktop, get_desktop, get_desktop_by_window, get_desktop_count,
    get_desktops, get_idesktop_guid, is_window_on_current_desktop, is_window_on_desktop,
    map_win_err, map_window_error, move_window_to_desktop, remove_desktop, switch_desktop,
    view_for_window, DesktopInternal, DesktopList, DesktopTest, Error, Guid, HResult, Relay,
};

const A: Guid = Guid(0x1111_0000_0000_0000_0000_0000_0000_0001);
const B: Guid = Guid(0x2222_0000_0000_0000_0000_0000_0000_0002);
const C: Guid = Guid(0x3333_0000_0000_0000_0000_0000_0000_0003);
const MISSING: Guid = Guid(0x9999);

fn three() -> DesktopList {
    DesktopList::from_ids(vec![A, B, C])
}

fn two() -> DesktopList {
    DesktopList::from_ids(vec![A, B])
}

#[test]
fn enumerate_two_desktops_then_switch_to_second() {
    let ids = two();
    let ds = get_desktops(&ids);
    assert_eq!(ds.len(), 2);
    assert_eq!(ds[0], DesktopTest(DesktopInternal::IndexGuid(0, A)));
    assert_eq!(ds[1], DesktopTest(DesktopInternal::IndexGuid(1, B)));
    let second = ds[1].get_id(&ids).unwrap();
    assert_ne!(ds[0].get_id(&ids).unwrap(), second);
    match switch_desktop(&ids, DesktopTest::from(1u32)).unwrap() {
        Relay::Switch(g) => assert_eq!(g, B),
        other => panic!("unexpected relay {:?}", other),
    }
    let current = get_current_desktop(Ok(Some(B))).unwrap();
    assert_eq!(current.get_id(&ids).unwrap(), second);
}

#[test]
fn count_matches_enumeration() {
    let ids = three();
    assert_eq!(get_desktop_count(&ids), 3);
    assert_eq!(get_desktops(&ids).len() as u32, get_desktop_count(&ids));
    let empty = DesktopList::from_ids(vec![]);
    assert_eq!(get_desktop_count(&empty), 0);
    assert!(get_desktops(&empty).is_empty());
}

#[test]
fn index_resolution() {
    let ids = three();
    assert_eq!(DesktopTest::from(2u32).get_index(&ids), Ok(2));
    assert_eq!(DesktopTest::from(B).get_index(&ids), Ok(1));
    assert_eq!(DesktopTest(DesktopInternal::IndexGuid(7, C)).get_index(&ids), Ok(7));
    assert_eq!(DesktopTest::from(MISSING).get_index(&ids), Err(Error::DesktopNotFound));
}

#[test]
fn first_match_wins_in_scan() {
    let ids = DesktopList::from_ids(vec![A, B, A]);
    assert_eq!(DesktopTest::from(A).get_index(&ids), Ok(0));
    assert_eq!(ids.position(B), Some(1));
    assert_eq!(ids.position(MISSING), None);
}

#[test]
fn identifier_resolution() {
    let ids = three();
    assert_eq!(DesktopTest::from(0u32).get_id(&ids), Ok(A));
    assert_eq!(DesktopTest::from(3u32).get_id(&ids), Err(Error::DesktopNotFound));
    assert_eq!(DesktopTest::from(MISSING).get_id(&ids), Ok(MISSING));
    assert_eq!(DesktopInternal::Guid(MISSING).get_handle(&ids), Err(Error::DesktopNotFound));
    assert_eq!(DesktopInternal::IndexGuid(0, C).get_handle(&ids), Ok(C));
}

#[test]
fn locate_round_trip_keeps_index() {
    let ids = three();
    for d in [
        DesktopInternal::Index(1),
        DesktopInternal::Guid(C),
        DesktopInternal::IndexGuid(0, A),
    ] {
        let located = d.locate(&ids).unwrap();
        assert_eq!(located.get_index(&ids), d.get_index(&ids));
    }
    assert_eq!(DesktopInternal::Guid(B).locate(&ids), Ok(DesktopInternal::IndexGuid(1, B)));
    assert_eq!(DesktopInternal::Index(5).locate(&ids), Err(Error::DesktopNotFound));
}

#[test]
fn equality_across_forms() {
    let ids = three();
    let by_index = DesktopInternal::Index(2);
    let by_guid = DesktopInternal::Guid(DesktopTest::from(2u32).get_id(&ids).unwrap());
    assert_eq!(by_index.try_eq(&by_guid, &ids), Ok(true));
    assert_eq!(by_guid.try_eq(&by_index, &ids), Ok(true));
    assert_eq!(by_index.try_eq(&DesktopInternal::IndexGuid(2, C), &ids), Ok(true));
    assert_eq!(by_guid.try_eq(&DesktopInternal::IndexGuid(2, C), &ids), Ok(true));
    assert_eq!(DesktopInternal::Index(0).try_eq(&DesktopInternal::Guid(B), &ids), Ok(false));
    assert_eq!(
        DesktopInternal::Index(9).try_eq(&DesktopInternal::Guid(B), &ids),
        Err(Error::DesktopNotFound)
    );
}

#[test]
fn remove_with_itself_as_fallback_fails() {
    let ids = three();
    let d = DesktopTest::from(1u32);
    assert_eq!(remove_desktop(&ids, d, d).unwrap_err(), Error::RemoveDesktopFailed);
    assert_eq!(
        remove_desktop(&ids, DesktopTest::from(1u32), DesktopTest::from(B)).unwrap_err(),
        Error::RemoveDesktopFailed
    );
}

#[test]
fn remove_resolves_both_first() {
    let ids = three();
    match remove_desktop(&ids, DesktopTest::from(C), DesktopTest::from(0u32)).unwrap() {
        Relay::Remove { desktop, fallback } => {
            assert_eq!(desktop, C);
            assert_eq!(fallback, A);
        }
        other => panic!("unexpected relay {:?}", other),
    }
    assert_eq!(
        remove_desktop(&ids, DesktopTest::from(MISSING), DesktopTest::from(0u32)).unwrap_err(),
        Error::RemoveDesktopFailed
    );
    assert_eq!(
        remove_desktop(&ids, DesktopTest::from(0u32), DesktopTest::from(8u32)).unwrap_err(),
        Error::RemoveDesktopFailed
    );
}

#[test]
fn missing_window_is_not_on_desktop() {
    let ids = two();
    let lookup = get_desktop_by_window(HResult(0x8002802B), Guid(0));
    assert_eq!(lookup, Err(Error::WindowNotFound));
    assert_eq!(is_window_on_desktop(&ids, DesktopTest::from(0u32), lookup), Ok(false));
    let unplaced = get_desktop_by_window(HResult(0), Guid(0));
    assert_eq!(unplaced, Err(Error::DesktopNotFound));
    assert_eq!(is_window_on_desktop(&ids, DesktopTest::from(0u32), unplaced), Ok(false));
}

#[test]
fn window_on_desktop_compares_identities() {
    let ids = two();
    let lookup = get_desktop_by_window(HResult(0), B);
    assert_eq!(lookup, Ok(DesktopTest(DesktopInternal::Guid(B))));
    assert_eq!(is_window_on_desktop(&ids, DesktopTest::from(1u32), lookup), Ok(true));
    assert_eq!(is_window_on_desktop(&ids, DesktopTest::from(0u32), lookup), Ok(false));
    assert_eq!(is_window_on_desktop(&ids, DesktopTest::from(4u32), lookup), Ok(false));
    let failed = get_desktop_by_window(HResult(0x8000_4005), B);
    assert_eq!(failed, Err(Error::ComError(HResult(0x8000_4005))));
    assert_eq!(
        is_window_on_desktop(&ids, DesktopTest::from(1u32), failed),
        Err(Error::ComError(HResult(0x8000_4005)))
    );
}

#[test]
fn window_lookup_error_mapping() {
    assert_eq!(map_window_error(HResult(0x8002802B)), Error::WindowNotFound);
    assert_eq!(map_window_error(HResult(0x8007_0005)), Error::ComError(HResult(0x8007_0005)));
    assert_eq!(is_window_on_current_desktop(HResult(0), true), Ok(true));
    assert_eq!(is_window_on_current_desktop(HResult(1), false), Ok(false));
    assert_eq!(is_window_on_current_desktop(HResult(0x8002802B), true), Err(Error::WindowNotFound));
}

#[test]
fn hresult_codes() {
    assert_eq!(HResult::from_i32(-1), HResult(0xFFFF_FFFF));
    assert_eq!(HResult::from_i32(0x7FFF_FFFF), HResult(0x7FFF_FFFF));
    assert_eq!(HResult::from_i32(i32::MIN), HResult(0x8000_0000));
    assert!(HResult(0x8000_0000).failed());
    assert!(!HResult(0x7FFF_FFFF).failed());
    assert_eq!(HResult(0x8000_4005).as_result(), Err(Error::ComError(HResult(0x8000_4005))));
    assert_eq!(HResult(0).as_result(), Ok(()));
    assert_eq!(
        map_win_err(windows::core::HRESULT(0x8002802Bu32 as i32)),
        Error::ComError(HResult(0x8002802B))
    );
    assert_eq!(get_idesktop_guid(HResult(0), A), Ok(A));
    assert_eq!(get_idesktop_guid(HResult(0x8000_FFFF), A), Err(Error::ComError(HResult(0x8000_FFFF))));
}

#[test]
fn create_finds_new_position_by_scan() {
    let after = DesktopList::from_ids(vec![A, C, B]);
    assert_eq!(create_desktop(Ok(Some(C)), &after), Ok(DesktopTest(DesktopInternal::IndexGuid(1, C))));
    assert_eq!(create_desktop(Ok(Some(MISSING)), &after), Err(Error::DesktopNotFound));
    assert_eq!(create_desktop(Ok(None), &after), Err(Error::ComAllocatedNullPtr));
    assert_eq!(create_desktop(Err(HResult(0x8000_4005)), &after), Err(Error::CreateDesktopFailed));
}

#[test]
fn current_desktop_outcomes() {
    assert_eq!(get_current_desktop(Ok(Some(A))), Ok(DesktopTest(DesktopInternal::Guid(A))));
    assert_eq!(get_current_desktop(Ok(None)), Err(Error::ComAllocatedNullPtr));
    assert_eq!(get_current_desktop(Err(HResult(0x8000_0001))), Err(Error::ComError(HResult(0x8000_0001))));
}

#[test]
fn switch_to_current_targets_current() {
    let ids = three();
    let current = get_current_desktop(Ok(Some(B))).unwrap();
    match switch_desktop(&ids, current).unwrap() {
        Relay::Switch(g) => assert_eq!(g, B),
        other => panic!("unexpected relay {:?}", other),
    }
    assert_eq!(switch_desktop(&ids, DesktopTest::from(3u32)).unwrap_err(), Error::DesktopNotFound);
}

#[test]
fn relays_for_names_wallpapers_and_moves() {
    let ids = three();
    let d = DesktopTest::from(2u32);
    assert!(matches!(d.get_name(&ids), Ok(Relay::ReadName(g)) if g == C));
    match d.set_name(&ids, "Work").unwrap() {
        Relay::WriteName(g, n) => {
            assert_eq!(g, C);
            assert_eq!(n, "Work");
        }
        other => panic!("unexpected relay {:?}", other),
    }
    assert!(matches!(d.get_wallpaper(&ids), Ok(Relay::ReadWallpaper(g)) if g == C));
    match d.set_wallpaper(&ids, "C:\\wall.jpg").unwrap() {
        Relay::WriteWallpaper(g, p) => {
            assert_eq!(g, C);
            assert_eq!(p, "C:\\wall.jpg");
        }
        other => panic!("unexpected relay {:?}", other),
    }
    assert_eq!(DesktopTest::from(MISSING).get_name(&ids).unwrap_err(), Error::DesktopNotFound);
    assert!(matches!(move_window_to_desktop(&ids, DesktopTest::from(A)), Ok(Relay::MoveView(g)) if g == A));
    assert_eq!(get_desktop(DesktopTest::from(A)), DesktopTest(DesktopInternal::Guid(A)));
}

#[test]
fn view_lookup_outcomes() {
    assert_eq!(view_for_window(HResult(0), Some(7u8)), Ok(7));
    assert_eq!(view_for_window::<u8>(HResult(0), None), Err(Error::WindowNotFound));
    assert_eq!(view_for_window(HResult(0x8000_4005), Some(7u8)), Err(Error::ComError(HResult(0x8000_4005))));
}

#[test]
fn test_switch_desktops_rapidly() {
    let ids = two();
    let current_desktop = get_current_desktop(Ok(Some(B))).unwrap();
    for _ in 0..1999 {
        switch_desktop(&ids, 0.into()).unwrap();
        switch_desktop(&ids, 1.into()).unwrap();
    }
    switch_desktop(&ids, current_desktop).unwrap();
}

#[test]
fn error_from_code() {
    assert_eq!(Error::from(HResult(0x8000_4005)), Error::ComError(HResult(0x8000_4005)));
}

#[test]
fn distinct_identifiers() {
    assert!(three().all_distinct());
    assert!(DesktopList::from_ids(vec![]).all_distinct());
    assert!(!DesktopList::from_ids(vec![A, B, A]).all_distinct());
    assert!(!DesktopList::from_ids(vec![C, C]).all_distinct());
}
