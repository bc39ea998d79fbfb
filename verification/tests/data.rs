use navipod::data::{
    container_constraint_len_calculator, pod_constraint_len_calculator, rs_constraint_len_calculator,
    Container, Rs, RsPod,
};

#[test]
fn test_container_constraint_len_calculator() {
    let test_data = vec![
        Container {
            name: "replica-123456-123456".to_string(),
            description: "Deployment".to_string(),
            restarts: "0".to_string(),
            image: "navicore/echo-secret-py:v0.1.1".to_string(),
            ports: "http:1234".to_string(),
            envvars: vec![],
            mounts: vec![],
            selectors: None,
            pod_name: "my-pod-1234".to_string(),
        },
        Container {
            name: "replica-923450-987654".to_string(),
            description: "Deployment".to_string(),
            restarts: "0".to_string(),
            image: "navicore/echo-secret-py:v0.1.1".to_string(),
            ports: "http:1234".to_string(),
            envvars: vec![],
            mounts: vec![],
            selectors: None,
            pod_name: "my-pod-5678".to_string(),
        },
    ];
    let (
        longest_container_len,
        longest_description_len,
        longest_restarts_len,
        longest_image_len,
        longest_ports_len,
    ) = container_constraint_len_calculator(&test_data);

    assert_eq!(21, longest_container_len);
    assert_eq!(10, longest_description_len);
    assert_eq!(1, longest_restarts_len);
    assert_eq!(30, longest_image_len);
    assert_eq!(9, longest_ports_len);
}

#[test]
fn test_pod_constraint_len_calculator() {
    let test_data = vec![
        RsPod {
            name: "replica-123456-123456".to_string(),
            status: "Running".to_string(),
            description: "Deployment".to_string(),
            age: "150d".to_string(),
            containers: "2/2".to_string(),
            selectors: None,
            events: vec![],
        },
        RsPod {
            name: "replica-923450-987654".to_string(),
            status: "Terminating".to_string(),
            description: "Deployment".to_string(),
            age: "10d".to_string(),
            containers: "2/2".to_string(),
            selectors: None,
            events: vec![],
        },
    ];
    let (
        longest_pod_name_len,
        longest_status_len,
        longest_containers_len,
        longest_age_len,
        longest_description_len,
    ) = pod_constraint_len_calculator(&test_data);

    assert_eq!(21, longest_pod_name_len);
    assert_eq!(11, longest_status_len);
    assert_eq!(10, longest_description_len);
    assert_eq!(4, longest_age_len);
    assert_eq!(3, longest_containers_len);
}

#[test]
fn test_rs_constraint_len_calculator() {
    let test_data = vec![
        Rs {
            name: "my-replica-123456".to_string(),
            owner: "my-replica".to_string(),
            description: "Deployment".to_string(),
            age: "300d".to_string(),
            pods: "10/10".to_string(),
            selectors: None,
            events: vec![],
        },
        Rs {
            name: "my-replica-923450".to_string(),
            owner: "my-replica".to_string(),
            description: "Deployment".to_string(),
            age: "10d".to_string(),
            pods: "1/1".to_string(),
            selectors: None,
            events: vec![],
        },
    ];
    let (
        longest_name_len,
        longest_pods_len,
        longest_age_len,
        longest_description_len,
        longest_owner_len,
    ) = rs_constraint_len_calculator(&test_data);

    assert_eq!(17, longest_name_len);
    assert_eq!(10, longest_owner_len);
    assert_eq!(10, longest_description_len);
    assert_eq!(4, longest_age_len);
    assert_eq!(5, longest_pods_len);
}

#[test]
fn empty_tables_have_zero_width_columns() {
    assert_eq!(rs_constraint_len_calculator(&[]), (0, 0, 0, 0, 0));
}

#[test]
fn wide_characters_count_double() {
    let rows = vec![Rs {
        name: "日本".to_string(),
        owner: String::new(),
        description: "a\nlonger line".to_string(),
        age: String::new(),
        pods: String::new(),
        selectors: None,
        events: vec![],
    }];
    let (name, _, _, description, _) = rs_constraint_len_calculator(&rows);
    assert_eq!(name, 4);
    assert_eq!(description, 11);
}
