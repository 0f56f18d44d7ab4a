use poweranalyses::routes;
use poweranalyses::routes::backend;
use poweranalyses::routes::{Handler, Method};

#[test]
fn the_service_answers_get_and_post() {
    let table = routes::routes();
    assert_eq!(table.len(), 2);
    assert_eq!(table[0].path, "/n");
    assert_eq!(table[0].method, Method::Get);
    assert_eq!(table[0].handler, Handler::Backend);
    assert_eq!(table[1].path, "/n");
    assert_eq!(table[1].method, Method::Post);
    assert_eq!(table[1].handler, Handler::Backend);
}

#[test]
fn the_backend_answers_get() {
    let table = backend::routes();
    assert_eq!(table.len(), 1);
    assert_eq!(table[0].path, "/n");
    assert_eq!(table[0].method, Method::Get);
    assert_eq!(table[0].handler, Handler::Backend);
}

#[test]
fn no_method_is_claimed_twice_on_a_path() {
    for table in [routes::routes(), backend::routes()] {
        for i in 0..table.len() {
            for j in i + 1..table.len() {
                assert!(table[i].path != table[j].path || table[i].method != table[j].method);
            }
        }
    }
}
