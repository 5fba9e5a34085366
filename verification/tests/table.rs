use pw_monitor::table::{ProxyTable, TableError};
use std::cell::RefCell;
use std::rc::Rc;

#[test]
fn new_table_is_empty() {
    let table: ProxyTable<&str, &str> = ProxyTable::new();
    assert!(table.is_empty());
    assert_eq!(table.len(), 0);
    assert!(!table.contains(0));
    assert_eq!(table.listener_count(0), None);
}

#[test]
fn insert_then_remove() {
    let mut table: ProxyTable<&str, &str> = ProxyTable::new();
    assert_eq!(table.insert(5, "node", vec!["info", "removed"]), Ok(()));
    assert!(table.contains(5));
    assert_eq!(table.len(), 1);
    assert_eq!(table.listener_count(5), Some(2));
    assert!(table.remove(5));
    assert!(!table.contains(5));
    assert!(table.is_empty());
}

#[test]
fn insert_of_a_live_id_is_refused() {
    let mut table: ProxyTable<String, u8> = ProxyTable::new();
    assert_eq!(table.insert(9, String::from("first"), vec![1, 2]), Ok(()));
    assert_eq!(
        table.insert(9, String::from("second"), vec![3]),
        Err(TableError::AlreadyTracked { id: 9 })
    );
    assert_eq!(table.len(), 1);
    assert_eq!(table.listener_count(9), Some(2));
    assert!(table.remove(9));
    assert_eq!(table.insert(9, String::from("third"), vec![4, 5, 6]), Ok(()));
    assert_eq!(table.listener_count(9), Some(3));
}

#[test]
fn removal_of_an_absent_id_changes_nothing() {
    let mut table: ProxyTable<&str, &str> = ProxyTable::new();
    assert_eq!(table.insert(1, "port", vec!["info", "removed"]), Ok(()));
    assert!(!table.remove(2));
    assert!(!table.remove(2));
    assert_eq!(table.len(), 1);
    assert!(table.contains(1));
    assert!(table.remove(1));
    assert!(!table.remove(1));
    assert!(table.is_empty());
}

#[test]
fn clear_drops_every_entry() {
    let mut table: ProxyTable<u32, u32> = ProxyTable::new();
    for id in 0..10u32 {
        assert_eq!(table.insert(id, id * 2, vec![id, id + 1]), Ok(()));
    }
    assert_eq!(table.len(), 10);
    table.clear();
    assert!(table.is_empty());
    assert_eq!(table.len(), 0);
    for id in 0..10u32 {
        assert!(!table.contains(id));
        assert!(!table.remove(id));
    }
    assert_eq!(table.insert(3, 0, vec![]), Ok(()));
    assert_eq!(table.listener_count(3), Some(0));
}

#[test]
fn ids_at_the_ends_of_the_range() {
    let mut table: ProxyTable<(), ()> = ProxyTable::new();
    assert_eq!(table.insert(0, (), vec![()]), Ok(()));
    assert_eq!(table.insert(u32::MAX, (), vec![(), ()]), Ok(()));
    assert!(table.contains(0));
    assert!(table.contains(u32::MAX));
    assert_eq!(table.listener_count(u32::MAX), Some(2));
    assert_eq!(table.len(), 2);
}

struct Probe {
    name: &'static str,
    log: Rc<RefCell<Vec<&'static str>>>,
}

impl Drop for Probe {
    fn drop(&mut self) {
        self.log.borrow_mut().push(self.name);
    }
}

#[test]
fn proxy_is_dropped_before_its_listeners() {
    let log = Rc::new(RefCell::new(Vec::new()));
    let probe = |name| Probe { name, log: log.clone() };
    let mut table: ProxyTable<Probe, Probe> = ProxyTable::new();
    assert!(table.insert(1, probe("proxy"), vec![probe("kind"), probe("removed")]).is_ok());
    assert!(log.borrow().is_empty());
    assert!(table.remove(1));
    assert_eq!(*log.borrow(), vec!["proxy", "kind", "removed"]);
}

#[test]
fn refused_entry_is_dropped_and_the_first_kept() {
    let log = Rc::new(RefCell::new(Vec::new()));
    let probe = |name| Probe { name, log: log.clone() };
    let mut table: ProxyTable<Probe, Probe> = ProxyTable::new();
    assert!(table.insert(1, probe("first"), vec![probe("first listener")]).is_ok());
    assert!(table.insert(1, probe("second"), vec![probe("second listener")]).is_err());
    assert_eq!(*log.borrow(), vec!["second", "second listener"]);
    table.clear();
    assert_eq!(
        *log.borrow(),
        vec!["second", "second listener", "first", "first listener"]
    );
}
