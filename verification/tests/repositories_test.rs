use agent::models::alert::{Alert, AlertCondition};
use agent::models::server::Server;
use agent::repositories::alerts_repository::AlertsRepository;
use agent::repositories::repository_base::RepositoryBase;
use agent::repositories::servers_repository::ServersRepository;
use agent::time::Timestamp;
use agent::traits::repository::Repository;
use agent::AppError;

fn is_uuid_v4(id: &str) -> bool {
    let chars: Vec<char> = id.chars().collect();
    chars.len() == 36
        && chars.iter().enumerate().all(|(i, c)| {
            if i == 8 || i == 13 || i == 18 || i == 23 {
                *c == '-'
            } else {
                c.is_ascii_digit() || ('a'..='f').contains(c)
            }
        })
        && chars[14] == '4'
        && "89ab".contains(chars[19])
}

#[test]
fn created_entities_get_uuid_ids_and_are_found_again() {
    let mut repo = ServersRepository::new();
    let server = Server::new("web", "web.local", "10.0.0.1").unwrap();
    let created = repo.create(server.clone()).unwrap();
    let id = created.id.clone().unwrap();
    assert!(is_uuid_v4(&id));
    assert_eq!(created.name, server.name);
    assert_eq!(repo.find_by_id(&id).unwrap(), created);
    assert_eq!(repo.count().unwrap(), 1);
}

#[test]
fn deleted_entity_is_not_found_with_message() {
    let mut repo = ServersRepository::new();
    let created = repo.create(Server::new("db", "db.local", "10.0.0.2").unwrap()).unwrap();
    let id = created.id.clone().unwrap();
    assert_eq!(repo.delete(&id).unwrap(), created);
    match repo.find_by_id(&id) {
        Err(AppError::NotFound(msg)) => assert_eq!(msg, format!("Entity with id {} not found", id)),
        other => panic!("unexpected {:?}", other),
    }
    assert_eq!(repo.count().unwrap(), 0);
}

#[test]
fn update_of_unknown_id_reports_not_found_and_changes_nothing() {
    let mut repo = AlertsRepository::new();
    let alert = Alert::new("s1", "cpu", 1.0f64.to_bits(), AlertCondition::LessThan).unwrap();
    repo.create(alert.clone()).unwrap();
    match repo.update(&"missing".to_string(), alert) {
        Err(AppError::NotFound(msg)) => assert_eq!(msg, "Entity with id missing not found"),
        other => panic!("unexpected {:?}", other),
    }
    assert_eq!(repo.count().unwrap(), 1);
}

#[test]
fn update_sets_the_id_of_the_stored_value() {
    let mut repo = AlertsRepository::new();
    let alert = Alert::new("s1", "cpu", 1.0f64.to_bits(), AlertCondition::LessThan).unwrap();
    let created = repo.create(alert.clone()).unwrap();
    let id = created.id.clone().unwrap();
    let replacement = Alert::new("s2", "ram", 2.0f64.to_bits(), AlertCondition::GreaterThan).unwrap();
    let updated = repo.update(&id, replacement).unwrap();
    assert_eq!(updated.id, Some(id.clone()));
    assert_eq!(updated.server_id, "s2");
    assert_eq!(repo.find_by_id(&id).unwrap(), updated);
    assert_eq!(repo.count().unwrap(), 1);
}

#[test]
fn find_all_keeps_storage_order_and_limit() {
    let mut repo = AlertsRepository::new();
    for name in ["a", "b", "c"] {
        repo.create(Alert::new(name, "cpu", 1.0f64.to_bits(), AlertCondition::LessThan).unwrap()).unwrap();
    }
    let all = repo.find_all(None).unwrap();
    let ids: Vec<&str> = all.iter().map(|a| a.server_id.as_str()).collect();
    assert_eq!(ids, vec!["a", "b", "c"]);
    assert_eq!(repo.find_all(Some(2)).unwrap().len(), 2);
    assert_eq!(repo.find_all(Some(2)).unwrap()[1].server_id, "b");
    assert_eq!(repo.find_all(Some(10)).unwrap().len(), 3);
    assert_eq!(repo.find_all(Some(0)).unwrap().len(), 0);
}

#[test]
fn alert_searches() {
    let mut repo = AlertsRepository::new();
    let mut off = Alert::new("s1", "ram", 1.0f64.to_bits(), AlertCondition::LessThan).unwrap();
    off.deactivate();
    repo.create(Alert::new("s1", "cpu", 1.0f64.to_bits(), AlertCondition::LessThan).unwrap()).unwrap();
    repo.create(off).unwrap();
    repo.create(Alert::new("s2", "cpu", 1.0f64.to_bits(), AlertCondition::LessThan).unwrap()).unwrap();
    assert_eq!(repo.find_by_server_id("s1", None).unwrap().len(), 2);
    assert_eq!(repo.find_by_server_id("s1", Some(1)).unwrap()[0].metric_type, "cpu");
    assert_eq!(repo.find_active_alerts().unwrap().len(), 2);
    assert_eq!(repo.find_by_metric_type("cpu").unwrap().len(), 2);
    assert_eq!(repo.find_by_metric_type("disk").unwrap().len(), 0);
}

#[test]
fn server_searches() {
    let mut repo = ServersRepository::new();
    let now = Timestamp::now();
    let mut seen = Server::new("a", "host-a", "10.0.0.1").unwrap();
    seen.activate_at(now);
    let mut idle = Server::new("b", "host-b", "10.0.0.2").unwrap();
    idle.deactivate();
    repo.create(seen).unwrap();
    repo.create(idle).unwrap();
    assert_eq!(repo.find_active_servers().unwrap().len(), 1);
    assert_eq!(repo.find_online_servers_at(now).unwrap().len(), 1);
    assert_eq!(repo.find_online_servers().unwrap().len(), 1);
    let later = Timestamp { secs: now.secs + 300, nanos: now.nanos };
    assert_eq!(repo.find_online_servers_at(later).unwrap().len(), 0);
    assert_eq!(repo.find_by_hostname("host-b").unwrap().unwrap().name, "b");
    assert!(repo.find_by_hostname("host-c").unwrap().is_none());
    assert_eq!(repo.find_by_ip("10.0.0.1").unwrap().unwrap().name, "a");
}

#[test]
fn base_repository_stores_under_given_and_fresh_ids() {
    let mut base: RepositoryBase<Server> = RepositoryBase::new();
    let server = Server::new("a", "h", "1.1.1.1").unwrap();
    base.create_with_id("k".to_string(), server.clone()).unwrap();
    assert_eq!(base.find_by_id(&"k".to_string()).unwrap(), server);
    let other = Server::new("b", "h2", "1.1.1.2").unwrap();
    base.create_with_id("k".to_string(), other.clone()).unwrap();
    assert_eq!(base.count().unwrap(), 1);
    assert_eq!(base.find_by_id(&"k".to_string()).unwrap(), other);
    base.create(server.clone()).unwrap();
    assert_eq!(base.count().unwrap(), 2);
    base.clear();
    assert_eq!(base.count().unwrap(), 0);
}
