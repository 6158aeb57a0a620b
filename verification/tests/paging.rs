use bigneon::paging::{Paging, PagingParameters, Payload, SearchParam, SortingDir};

#[test]
fn new_paging_is_unsorted_and_empty() {
    let paging = Paging::new(3, 25);
    assert_eq!(paging.page, 3);
    assert_eq!(paging.limit, 25);
    assert_eq!(paging.sort, "");
    assert_eq!(paging.dir, SortingDir::Asc);
    assert_eq!(paging.total, 0);
    assert!(paging.tags.is_empty());
}

#[test]
fn missing_parameters_get_their_defaults() {
    let paging = Paging::from(PagingParameters { page: None, limit: None, sort: None, dir: None, tags: None });
    assert_eq!((paging.page, paging.limit, paging.total), (0, 100, 0));
    assert_eq!(paging.sort, "");
    assert_eq!(paging.dir, SortingDir::Asc);
    assert!(paging.tags.is_empty());
}

#[test]
fn given_parameters_are_kept() {
    let tags = vec![SearchParam { name: "query".to_string(), values: vec!["rock".to_string(), "jazz".to_string()] }];
    let paging = Paging::from(PagingParameters {
        page: Some(2),
        limit: Some(10),
        sort: Some("name".to_string()),
        dir: Some(SortingDir::Desc),
        tags: Some(tags),
    });
    assert_eq!((paging.page, paging.limit, paging.total), (2, 10, 0));
    assert_eq!(paging.sort, "name");
    assert_eq!(paging.dir, SortingDir::Desc);
    assert_eq!(paging.tags.len(), 1);
    assert_eq!(paging.tags[0].name, "query");
    assert_eq!(paging.tags[0].values, vec!["rock".to_string(), "jazz".to_string()]);
}

#[test]
fn a_payload_is_one_page_of_its_whole_length() {
    let payload = Payload::new(vec![7, 8, 9], Paging::new(4, 50));
    assert_eq!(payload.data, vec![7, 8, 9]);
    assert_eq!(payload.paging.total, 3);
    assert_eq!(payload.paging.limit, 3);
    assert_eq!(payload.paging.page, 4);
}

#[test]
fn an_empty_payload_has_a_total_of_zero() {
    let mut paging = Paging::new(1, 20);
    paging.total = 12;
    let payload: Payload<u8> = Payload::empty(paging);
    assert!(payload.data.is_empty());
    assert_eq!(payload.paging.total, 0);
    assert_eq!(payload.paging.limit, 20);
    assert_eq!(payload.paging.page, 1);
}
