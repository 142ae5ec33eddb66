use std::sync::Arc;

use pota_api::activity::{
    activity_query_at, hours_before, lookback_hours, FindAct, UtcTime, DEFAULT_LOOKBACK_HOURS,
    MAX_UTC_SECS, MIN_UTC_SECS,
};
use pota_api::query::{
    delete_reference_request, pota_results, reference_page_query, reference_query,
    reference_search_query, BoundingBox, DeleteRef, FindRef, GetParam, ParkCode, Program,
};
use pota_api::routes::{pota_endpoints, pota_prefix, HttpMethod, PotaEndpoint};
use pota_api::state::AppState;
use pota_api::upload::{import_payload, log_upload, RequestError};

fn empty_param() -> GetParam<f64> {
    GetParam {
        limit: None,
        offset: None,
        name: None,
        ref_id: None,
        user_id: None,
        min_area: None,
        min_elev: None,
        max_lat: None,
        min_lat: None,
        max_lon: None,
        min_lon: None,
        after: None,
    }
}

fn empty_query() -> FindRef<f64, u32> {
    FindRef {
        program: Program::Pota,
        limit: None,
        offset: None,
        name: None,
        ref_id: None,
        user_id: None,
        min_area: None,
        bbox: None,
    }
}

#[test]
fn endpoint_table_matches_router() {
    let expected = [
        (PotaEndpoint::ImportReference, HttpMethod::Post, "/import"),
        (PotaEndpoint::UploadActivatorLog, HttpMethod::Post, "/upload/activator/:user_id"),
        (PotaEndpoint::UploadHunterLog, HttpMethod::Post, "/upload/hunter/:user_id"),
        (PotaEndpoint::Spots, HttpMethod::Get, "/spots"),
        (PotaEndpoint::Alerts, HttpMethod::Get, "/alerts"),
        (PotaEndpoint::AllReferences, HttpMethod::Get, "/park-list"),
        (PotaEndpoint::ReferenceList, HttpMethod::Get, "/park"),
        (PotaEndpoint::ShowReference, HttpMethod::Get, "/park/:park_code"),
        (PotaEndpoint::UpdateReference, HttpMethod::Put, "/park/:park_code"),
        (PotaEndpoint::DeleteReference, HttpMethod::Delete, "/park/:park_code"),
    ];
    let endpoints = pota_endpoints();
    assert_eq!(endpoints.len(), expected.len());
    for (e, (want, method, path)) in endpoints.iter().zip(expected.iter()) {
        assert_eq!(e, want);
        assert_eq!(e.method(), *method);
        assert_eq!(e.path(), *path);
    }
}

#[test]
fn endpoints_nested_under_pota() {
    assert_eq!(pota_prefix(), "/pota");
    assert_eq!(PotaEndpoint::Spots.full_path(), "/pota/spots");
    assert_eq!(PotaEndpoint::UploadHunterLog.full_path(), "/pota/upload/hunter/:user_id");
    for e in pota_endpoints() {
        assert!(e.full_path().starts_with("/pota/"));
        assert!(e.path().starts_with('/'));
    }
}

#[test]
fn no_two_endpoints_share_a_route() {
    let endpoints = pota_endpoints();
    for (i, a) in endpoints.iter().enumerate() {
        for (j, b) in endpoints.iter().enumerate() {
            if i != j {
                assert_ne!(a, b);
                assert!(a.method() != b.method() || a.path() != b.path());
            }
        }
    }
}

#[test]
fn success_statuses() {
    assert_eq!(PotaEndpoint::ImportReference.success_status(), Some(201));
    assert_eq!(PotaEndpoint::UploadActivatorLog.success_status(), Some(201));
    assert_eq!(PotaEndpoint::UploadHunterLog.success_status(), Some(201));
    assert_eq!(PotaEndpoint::UpdateReference.success_status(), Some(201));
    assert_eq!(PotaEndpoint::DeleteReference.success_status(), Some(200));
    assert_eq!(PotaEndpoint::Spots.success_status(), None);
    assert_eq!(PotaEndpoint::ReferenceList.success_status(), None);
}

#[test]
fn show_reference_query() {
    let q: FindRef<f64, u32> = reference_query("JA-0001".to_string());
    assert_eq!(q, FindRef { ref_id: Some("JA-0001".to_string()), ..empty_query() });
}

#[test]
fn page_query_keeps_only_limit_and_offset() {
    let mut p = empty_param();
    p.limit = Some(20);
    p.offset = Some(40);
    p.name = Some("Fuji".to_string());
    p.min_lat = Some(35.0);
    let q: FindRef<f64, u32> = reference_page_query(p);
    assert_eq!(q, FindRef { limit: Some(20), offset: Some(40), ..empty_query() });
}

#[test]
fn search_query_takes_every_parameter() {
    let mut p = empty_param();
    p.limit = Some(10);
    p.offset = Some(5);
    p.name = Some("Park".to_string());
    p.ref_id = Some("JA-0100".to_string());
    p.user_id = Some("7".to_string());
    p.min_area = Some(100);
    p.min_elev = Some(250);
    p.min_lon = Some(139.0);
    p.min_lat = Some(35.0);
    p.max_lon = Some(140.0);
    p.max_lat = Some(36.0);
    let q = reference_search_query::<f64, u32, String>(p, Some(Ok(7)));
    assert_eq!(
        q,
        Ok(FindRef {
            program: Program::Pota,
            limit: Some(10),
            offset: Some(5),
            name: Some("Park".to_string()),
            ref_id: Some("JA-0100".to_string()),
            user_id: Some(7),
            min_area: Some(250),
            bbox: Some(BoundingBox { min_lon: 139.0, min_lat: 35.0, max_lon: 140.0, max_lat: 36.0 }),
        })
    );
}

#[test]
fn search_query_without_parameters() {
    let q = reference_search_query::<f64, u32, String>(empty_param(), None);
    assert_eq!(q, Ok(empty_query()));
}

#[test]
fn search_query_needs_all_four_corners() {
    let mut p = empty_param();
    p.min_lon = Some(139.0);
    p.min_lat = Some(35.0);
    p.max_lon = Some(140.0);
    let q = reference_search_query::<f64, u32, String>(p, None).unwrap();
    assert_eq!(q.bbox, None);
}

#[test]
fn search_query_user_id_error_wins() {
    let mut p = empty_param();
    p.user_id = Some("not-a-user".to_string());
    p.min_area = Some(1);
    let q = reference_search_query::<f64, u32, String>(p, Some(Err("bad id".to_string())));
    assert_eq!(q, Err("bad id".to_string()));
}

#[test]
fn delete_request_names_the_park() {
    assert_eq!(
        delete_reference_request("K-0001".to_string()),
        DeleteRef::Delete(ParkCode("K-0001".to_string()))
    );
}

#[test]
fn pota_results_default_to_empty() {
    assert_eq!(pota_results::<u8>(None), Vec::<u8>::new());
    assert_eq!(pota_results(Some(vec![1u8, 2, 3])), vec![1, 2, 3]);
}

#[test]
fn lookback_defaults_to_three_hours() {
    assert_eq!(DEFAULT_LOOKBACK_HOURS, 3);
    assert_eq!(lookback_hours(&empty_param()), 3);
    let mut p = empty_param();
    p.after = Some(12);
    assert_eq!(lookback_hours(&p), 12);
}

#[test]
fn hours_before_subtracts_whole_hours() {
    let now = UtcTime { secs: 1_700_000_000, nanos: 123_456_789 };
    assert_eq!(
        hours_before(now, 3),
        Some(UtcTime { secs: 1_699_989_200, nanos: 123_456_789 })
    );
    assert_eq!(hours_before(now, -2), Some(UtcTime { secs: 1_700_007_200, nanos: 123_456_789 }));
    assert_eq!(hours_before(now, 0), Some(now));
}

#[test]
fn hours_before_agrees_with_chrono() {
    let now = UtcTime { secs: 1_700_000_000, nanos: 5 };
    let dt = chrono::DateTime::from_timestamp(now.secs, now.nanos).unwrap();
    let want = dt - chrono::TimeDelta::hours(48);
    let got = hours_before(now, 48).unwrap();
    assert_eq!(got.secs, want.timestamp());
    assert_eq!(got.nanos, want.timestamp_subsec_nanos());
}

#[test]
fn hours_before_span_out_of_range() {
    let now = UtcTime { secs: 0, nanos: 0 };
    assert_eq!(hours_before(now, i64::MAX), None);
    assert_eq!(hours_before(now, 2_562_047_788_016), None);
    assert!(chrono::TimeDelta::try_hours(2_562_047_788_016).is_none());
}

#[test]
fn hours_before_instant_out_of_range() {
    // The span exists but the instant lies far before anything chrono represents.
    let now = UtcTime { secs: 0, nanos: 0 };
    assert!(chrono::TimeDelta::try_hours(2_562_047_788_015).is_some());
    assert_eq!(hours_before(now, 2_562_047_788_015), None);
}

#[test]
fn activity_query_at_given_instant() {
    let now = UtcTime { secs: 1_000_000, nanos: 0 };
    let mut p = empty_param();
    p.after = Some(1);
    assert_eq!(
        activity_query_at(&p, now),
        FindAct { program: Program::Pota, after: UtcTime { secs: 996_400, nanos: 0 } }
    );
    assert_eq!(
        activity_query_at(&empty_param(), now),
        FindAct { program: Program::Pota, after: UtcTime { secs: 989_200, nanos: 0 } }
    );
    p.after = Some(i64::MAX);
    assert_eq!(hours_before(now, lookback_hours(&p)), None);
}

#[test]
fn activity_query_from_the_clock() {
    let clock = chrono::Utc::now();
    let now = UtcTime { secs: clock.timestamp(), nanos: clock.timestamp_subsec_nanos() };
    let q = activity_query_at(&empty_param(), now);
    assert_eq!(q.program, Program::Pota);
    assert_eq!(q.after.secs, now.secs - 3 * 3600);
    assert_eq!(q.after.nanos, now.nanos);
    let want = clock - chrono::TimeDelta::hours(3);
    assert_eq!(q.after.secs, want.timestamp());
}

#[test]
fn chrono_range_bounds() {
    assert_eq!(chrono::DateTime::<chrono::Utc>::MIN_UTC.timestamp(), MIN_UTC_SECS);
    assert_eq!(chrono::DateTime::<chrono::Utc>::MAX_UTC.timestamp(), MAX_UTC_SECS);
    assert!(chrono::DateTime::from_timestamp(MIN_UTC_SECS, 0).is_some());
    assert!(chrono::DateTime::from_timestamp(MIN_UTC_SECS - 1, 999_999_999).is_none());
    assert!(chrono::DateTime::from_timestamp(MAX_UTC_SECS, 999_999_999).is_some());
    assert!(chrono::DateTime::from_timestamp(MAX_UTC_SECS + 1, 0).is_none());
    assert!(chrono::DateTime::from_timestamp(59, 1_500_000_000).is_some());
    assert!(chrono::DateTime::from_timestamp(58, 1_500_000_000).is_none());
    assert!(chrono::DateTime::from_timestamp(59, 2_000_000_000).is_none());
}

#[test]
fn hours_before_at_the_range_edges() {
    let earliest = UtcTime { secs: MIN_UTC_SECS + 3600, nanos: 7 };
    assert_eq!(hours_before(earliest, 1), Some(UtcTime { secs: MIN_UTC_SECS, nanos: 7 }));
    assert_eq!(hours_before(earliest, 2), None);
    let latest = UtcTime { secs: MAX_UTC_SECS - 3600, nanos: 0 };
    assert_eq!(hours_before(latest, -1), Some(UtcTime { secs: MAX_UTC_SECS, nanos: 0 }));
    assert_eq!(hours_before(latest, -2), None);
}

#[test]
fn import_without_field_is_forbidden() {
    assert_eq!(import_payload::<String>(None), Err(RequestError::ForbiddenOperation));
}

#[test]
fn import_decodes_utf8() {
    let bytes = "ref,name\nJA-0001,Shiretoko\u{65e5}\n".as_bytes().to_vec();
    assert_eq!(
        import_payload::<String>(Some(bytes)),
        Ok("ref,name\nJA-0001,Shiretoko\u{65e5}\n".to_string())
    );
}

#[test]
fn log_upload_cases() {
    assert_eq!(
        log_upload::<u32, String>(None, Err("bad".to_string())),
        Err(RequestError::ForbiddenOperation)
    );
    assert_eq!(
        log_upload::<u32, String>(Some(b"a,b".to_vec()), Err("bad".to_string())),
        Err(RequestError::InvalidUserId("bad".to_string()))
    );
    assert_eq!(
        log_upload::<u32, String>(Some(b"a,b".to_vec()), Ok(42)),
        Ok((42, "a,b".to_string()))
    );
}

#[test]
fn state_shares_one_registry() {
    let state = AppState::new(String::from("registry"));
    let a = state.module();
    let b: Arc<String> = Arc::from(&state);
    let c = state.clone().module();
    assert_eq!(*a, "registry");
    assert!(Arc::ptr_eq(&a, &b));
    assert!(Arc::ptr_eq(&a, &c));
}
