use hetu::cloudsrv::state::backend::{StateBackend, StateBackendClient};
use hetu::cloudsrv::state::keys::{
    to_executor_key, to_executors_prefix, to_job_key, to_path, to_task_key, to_tasks_prefix,
};
use hetu::cloudsrv::state::standalone::StandaloneClient;
use hetu::cloudsrv::state::tasks::TaskKey;

fn listed(store: &StandaloneClient, namespace: &str, prefix: &str) -> Vec<(String, Vec<u8>)> {
    store.list(namespace, prefix).unwrap()
}

fn pair(key: &str, value: &[u8]) -> (String, Vec<u8>) {
    (key.to_string(), value.to_vec())
}

#[test]
fn put_then_get_returns_the_written_value() {
    let mut store = StandaloneClient::new();
    assert_eq!(store.get("ns", "k"), Ok(None));
    assert_eq!(store.put("ns", "k", vec![1, 2, 3]), Ok(()));
    assert_eq!(store.get("ns", "k"), Ok(Some(vec![1, 2, 3])));
    assert_eq!(store.put("ns", "k", vec![]), Ok(()));
    assert_eq!(store.get("ns", "k"), Ok(Some(vec![])));
    assert_eq!(store.put("ns", "k", vec![9]), Ok(()));
    assert_eq!(store.get("ns", "k"), Ok(Some(vec![9])));
}

#[test]
fn namespaces_do_not_see_each_other() {
    let mut store = StandaloneClient::new();
    store.put("a", "k", vec![1]).unwrap();
    store.put("b", "k", vec![2]).unwrap();
    assert_eq!(store.get("a", "k"), Ok(Some(vec![1])));
    assert_eq!(store.get("b", "k"), Ok(Some(vec![2])));
    assert_eq!(store.get("c", "k"), Ok(None));
    assert_eq!(store.get("", "ak"), Ok(None));
    assert_eq!(listed(&store, "a", ""), vec![pair("k", &[1])]);
    assert_eq!(listed(&store, "b", ""), vec![pair("k", &[2])]);
    assert_eq!(listed(&store, "ab", ""), vec![]);
}

#[test]
fn list_returns_exactly_the_keys_with_the_prefix() {
    let mut store = StandaloneClient::new();
    store.put("ns", "jobs/1", vec![1]).unwrap();
    store.put("ns", "executors/b", vec![2]).unwrap();
    store.put("ns", "jobs/1/tasks/0/0", vec![3]).unwrap();
    store.put("ns", "executors/a", vec![4]).unwrap();
    store.put("ns", "job", vec![5]).unwrap();
    store.put("other", "executors/z", vec![6]).unwrap();
    assert_eq!(
        listed(&store, "ns", "executors/"),
        vec![pair("executors/a", &[4]), pair("executors/b", &[2])]
    );
    assert_eq!(
        listed(&store, "ns", "jobs/1"),
        vec![pair("jobs/1", &[1]), pair("jobs/1/tasks/0/0", &[3])]
    );
    assert_eq!(listed(&store, "ns", "jobs/2"), vec![]);
    assert_eq!(listed(&store, "ns", "").len(), 5);
    assert_eq!(listed(&store, "ns", "job")[0], pair("job", &[5]));
}

#[test]
fn list_does_not_depend_on_the_order_of_writes() {
    let keys = ["b", "a/1", "a", "c", "a/0", "ab", "é", "a/10"];
    let orders: [[usize; 8]; 4] = [
        [0, 1, 2, 3, 4, 5, 6, 7],
        [7, 6, 5, 4, 3, 2, 1, 0],
        [3, 0, 6, 1, 7, 2, 5, 4],
        [4, 5, 2, 7, 1, 6, 0, 3],
    ];
    let mut listings = Vec::new();
    for order in orders.iter() {
        let mut store = StandaloneClient::new();
        for i in order.iter() {
            store.put("ns", keys[*i], vec![*i as u8]).unwrap();
        }
        listings.push((listed(&store, "ns", ""), listed(&store, "ns", "a")));
    }
    for listing in listings.iter() {
        assert_eq!(*listing, listings[0]);
    }
    let all: Vec<String> = listings[0].0.iter().map(|(k, _)| k.clone()).collect();
    assert_eq!(all, vec!["a", "a/0", "a/1", "a/10", "ab", "b", "c", "é"]);
    let under_a: Vec<String> = listings[0].1.iter().map(|(k, _)| k.clone()).collect();
    assert_eq!(under_a, vec!["a", "a/0", "a/1", "a/10", "ab"]);
}

#[test]
fn backend_is_read_from_its_name() {
    assert_eq!(StateBackend::from_name("Etcd"), StateBackend::Etcd);
    assert_eq!(StateBackend::from_name("Standalone"), StateBackend::Standalone);
    assert_eq!(StateBackend::from_name("etcd"), StateBackend::Standalone);
    assert_eq!(StateBackend::from_name(""), StateBackend::Standalone);
}

#[test]
fn keys_follow_the_layout() {
    assert_eq!(to_executors_prefix(), "executors/");
    assert_eq!(to_executor_key("e-1"), "executors/e-1");
    assert_eq!(to_job_key("j7"), "jobs/j7");
    assert_eq!(to_tasks_prefix("j7"), "jobs/j7/tasks/");
    let task = TaskKey {
        job_id: "j7".to_string(),
        stage_id: 12,
        partition_id: 0,
    };
    assert_eq!(to_task_key(&task), "jobs/j7/tasks/12/0");
    let last = TaskKey {
        job_id: String::new(),
        stage_id: u32::MAX,
        partition_id: 4294967295,
    };
    assert_eq!(to_task_key(&last), "jobs//tasks/4294967295/4294967295");
    assert_eq!(to_path("ballista", "executors/e-1"), "ballista/executors/e-1");
}

#[test]
fn tasks_of_a_job_are_found_under_its_prefix() {
    let mut store = StandaloneClient::new();
    for (job, stage, partition) in [("j1", 1, 0), ("j1", 1, 1), ("j2", 1, 0), ("j1", 2, 0)] {
        let task = TaskKey {
            job_id: job.to_string(),
            stage_id: stage,
            partition_id: partition,
        };
        store.put("ns", &to_task_key(&task), vec![stage as u8]).unwrap();
    }
    store.put("ns", &to_job_key("j1"), vec![]).unwrap();
    let found = listed(&store, "ns", &to_tasks_prefix("j1"));
    let keys: Vec<String> = found.into_iter().map(|(k, _)| k).collect();
    assert_eq!(
        keys,
        vec!["jobs/j1/tasks/1/0", "jobs/j1/tasks/1/1", "jobs/j1/tasks/2/0"]
    );
}
