use rust_decimal::Decimal;
use stocks_api::products::{
    get_product_by_id_reply, get_product_by_reference_reply, get_products_reply, Answer,
    CreateProductFlow, CreateProductRequest, CreateStage, DbFailure, DeleteProductFlow,
    DeleteStage, Next, ProductQuery, UpdateProductFlow, UpdateProductRequest, UpdateStage,
};
use stocks_api::responses::{Body, ErrorCode, Payload, Reply, StatusCode};

fn new_product(reference: &str) -> CreateProductRequest {
    CreateProductRequest {
        name: "Vis".to_string(),
        category: "Quincaillerie".to_string(),
        reference: reference.to_string(),
        supplier_id: 4,
        stock_quantity: 100,
        buying_price: Decimal::new(1250, 2),
        status: "active".to_string(),
    }
}

fn changes(reference: Option<&str>, stock_quantity: Option<i32>) -> UpdateProductRequest {
    UpdateProductRequest {
        name: None,
        category: None,
        reference: reference.map(|r| r.to_string()),
        supplier_id: None,
        stock_quantity,
        buying_price: None,
        status: Some("archived".to_string()),
    }
}

fn data<P>(r: Reply<P>) -> Payload<P> {
    match r.body {
        Body::Data(d) => d,
        _ => panic!("expected the data alone"),
    }
}

fn failed<P>(text: &str) -> Answer<P> {
    Answer::Failed(DbFailure { text: text.to_string() })
}

fn reply<P, B>(next: Next<P, B>) -> Reply<P> {
    match next {
        Next::Respond(r) => r,
        Next::Ask(_) => panic!("expected a reply"),
    }
}

fn failure_parts<P>(r: &Reply<P>) -> (u16, ErrorCode, String) {
    match &r.body {
        Body::Failure { code, message } => (r.status.as_u16(), *code, message.clone()),
        _ => panic!("expected an error body"),
    }
}

fn success_message<P>(r: &Reply<P>) -> String {
    match &r.body {
        Body::Success { message, .. } => message.clone(),
        _ => panic!("expected a success body"),
    }
}

#[test]
fn list_reply_carries_all_products() {
    let r = get_products_reply(Ok(vec![1, 2, 3]));
    assert_eq!(r.status.as_u16(), 200);
    match data(r) {
        Payload::Products(v) => assert_eq!(v, vec![1, 2, 3]),
        _ => panic!("expected the list"),
    }
}

#[test]
fn list_reply_on_database_error() {
    let r = get_products_reply::<i32>(Err(DbFailure { text: "connection refused".to_string() }));
    assert_eq!(
        failure_parts(&r),
        (500, ErrorCode::DatabaseError, "Erreur de base de données".to_string())
    );
}

#[test]
fn single_reply() {
    let r = get_product_by_id_reply(Ok(7));
    assert_eq!(r.status.as_u16(), 200);
    assert!(matches!(data(r), Payload::Product(7)));
    let r = get_product_by_id_reply::<i32>(Err(DbFailure { text: "no rows".to_string() }));
    assert_eq!(failure_parts(&r).0, 500);
    let r = get_product_by_reference_reply(Ok(7));
    assert_eq!(r.status.as_u16(), 200);
    assert_eq!(success_message(&r), "Product retrieved successfully");
    assert!(matches!(r.body, Body::Success { data: Payload::Product(7), .. }));
    let r = get_product_by_reference_reply::<i32>(Err(DbFailure { text: "x".to_string() }));
    assert_eq!(failure_parts(&r).1, ErrorCode::DatabaseError);
}

#[test]
fn create_with_free_reference_inserts() {
    let (mut flow, q) = CreateProductFlow::start(new_product("REF-1"));
    match q {
        ProductQuery::ReferenceTaken { reference } => assert_eq!(reference, "REF-1"),
        _ => panic!("expected the reference check"),
    }
    match flow.step::<i32>(Answer::Flag(false)) {
        Next::Ask(ProductQuery::InsertProduct { body }) => {
            assert_eq!(body.reference, "REF-1");
            assert_eq!(body.name, "Vis");
            assert_eq!(body.buying_price, Decimal::new(1250, 2));
        }
        _ => panic!("expected the insertion"),
    }
    assert_eq!(flow.stage, CreateStage::Inserting);
    let r = reply(flow.step(Answer::One(5)));
    assert_eq!(r.status.as_u16(), 201);
    assert!(matches!(data(r), Payload::Product(5)));
    assert_eq!(flow.stage, CreateStage::Finished);
}

#[test]
fn create_with_taken_reference_conflicts() {
    let (mut flow, _) = CreateProductFlow::start(new_product("ABC"));
    let r = reply(flow.step::<i32>(Answer::Flag(true)));
    assert_eq!(
        failure_parts(&r),
        (409, ErrorCode::AlreadyExists, "Un produit avec la référence 'ABC' existe déjà".to_string())
    );
}

#[test]
fn create_reference_check_failure() {
    let (mut flow, _) = CreateProductFlow::start(new_product("ABC"));
    let r = reply(flow.step::<i32>(failed("timeout")));
    assert_eq!(failure_parts(&r).0, 500);
    assert_eq!(failure_parts(&r).1, ErrorCode::DatabaseError);
}

#[test]
fn create_insert_with_unknown_supplier() {
    let (mut flow, _) = CreateProductFlow::start(new_product("ABC"));
    let _ = flow.step::<i32>(Answer::Flag(false));
    let r = reply(flow.step::<i32>(failed(
        "error returned from database: insert or update on table \"products\" violates foreign key constraint \"products_supplier_id_fkey\"",
    )));
    assert_eq!(
        failure_parts(&r),
        (500, ErrorCode::NotFound, "supplier_id invalide".to_string())
    );
}

#[test]
fn create_insert_other_failure() {
    let (mut flow, _) = CreateProductFlow::start(new_product("ABC"));
    let _ = flow.step::<i32>(Answer::Flag(false));
    let r = reply(flow.step::<i32>(failed("foreign key")));
    assert_eq!(
        failure_parts(&r),
        (500, ErrorCode::DatabaseError, "Erreur lors de la création du produit".to_string())
    );
}

#[test]
fn update_missing_product() {
    let (mut flow, q) = UpdateProductFlow::start(42, changes(Some("X"), Some(3)));
    match q {
        ProductQuery::ProductExists { id } => assert_eq!(id, 42),
        _ => panic!("expected the existence check"),
    }
    let r = reply(flow.step::<i32>(Answer::Flag(false)));
    assert_eq!(
        failure_parts(&r),
        (404, ErrorCode::NotFound, "Produit avec ID 42 non trouvé".to_string())
    );
    assert_eq!(flow.stage, UpdateStage::Finished);
}

#[test]
fn update_without_new_reference_skips_reference_check() {
    let (mut flow, _) = UpdateProductFlow::start(3, changes(None, Some(12)));
    match flow.step::<i32>(Answer::Flag(true)) {
        Next::Ask(ProductQuery::UpdateProduct { id, body, restocked }) => {
            assert_eq!(id, 3);
            assert_eq!(body.stock_quantity, Some(12));
            assert!(restocked);
        }
        _ => panic!("expected the update"),
    }
    let r = reply(flow.step(Answer::One(9)));
    assert_eq!(r.status.as_u16(), 200);
    assert!(matches!(data(r), Payload::Product(9)));
}

#[test]
fn update_with_new_reference_checks_it() {
    let (mut flow, _) = UpdateProductFlow::start(3, changes(Some("NEW"), None));
    match flow.step::<i32>(Answer::Flag(true)) {
        Next::Ask(ProductQuery::ReferenceTakenByOther { reference, id }) => {
            assert_eq!(reference, "NEW");
            assert_eq!(id, 3);
        }
        _ => panic!("expected the reference check"),
    }
    match flow.step::<i32>(Answer::Flag(false)) {
        Next::Ask(ProductQuery::UpdateProduct { id, body, restocked }) => {
            assert_eq!(id, 3);
            assert_eq!(body.reference.as_deref(), Some("NEW"));
            assert!(!restocked);
        }
        _ => panic!("expected the update"),
    }
}

#[test]
fn update_with_used_reference_conflicts() {
    let (mut flow, _) = UpdateProductFlow::start(3, changes(Some("NEW"), None));
    let _ = flow.step::<i32>(Answer::Flag(true));
    let r = reply(flow.step::<i32>(Answer::Flag(true)));
    assert_eq!(
        failure_parts(&r),
        (
            409,
            ErrorCode::AlreadyExists,
            "Un autre produit utilise déjà la référence 'NEW'".to_string()
        )
    );
}

#[test]
fn update_failures() {
    let (mut flow, _) = UpdateProductFlow::start(3, changes(None, None));
    let r = reply(flow.step::<i32>(failed("down")));
    assert_eq!(failure_parts(&r).2, "Erreur de base de données");
    let (mut flow, _) = UpdateProductFlow::start(3, changes(Some("R"), None));
    let _ = flow.step::<i32>(Answer::Flag(true));
    let r = reply(flow.step::<i32>(failed("down")));
    assert_eq!(failure_parts(&r).0, 500);
    let (mut flow, _) = UpdateProductFlow::start(3, changes(None, None));
    let _ = flow.step::<i32>(Answer::Flag(true));
    let r = reply(flow.step::<i32>(failed("down")));
    assert_eq!(
        failure_parts(&r),
        (500, ErrorCode::DatabaseError, "Erreur lors de la mise à jour du produit".to_string())
    );
}

#[test]
fn delete_removes_existing_product() {
    let (mut flow, _) = DeleteProductFlow::start::<&str>(8);
    match flow.step::<i32, &str>(Answer::Flag(true)) {
        Next::Ask(ProductQuery::DeleteProduct { id }) => assert_eq!(id, 8),
        _ => panic!("expected the deletion"),
    }
    let r = reply(flow.step::<i32, &str>(Answer::Rows(1)));
    assert_eq!(r.status.as_u16(), 200);
    assert_eq!(success_message(&r), "Product deleted successfully");
    assert!(matches!(r.body, Body::Success { data: Payload::Nothing, .. }));
    assert_eq!(flow.stage, DeleteStage::Finished);
}

#[test]
fn delete_of_missing_product() {
    let (mut flow, _) = DeleteProductFlow::start::<&str>(-7);
    let r = reply(flow.step::<i32, &str>(Answer::Flag(false)));
    assert_eq!(
        failure_parts(&r),
        (404, ErrorCode::NotFound, "Produit avec ID -7 non trouvé".to_string())
    );
}

#[test]
fn delete_that_removed_nothing() {
    let (mut flow, _) = DeleteProductFlow::start::<&str>(i32::MIN);
    let _ = flow.step::<i32, &str>(Answer::Flag(true));
    let r = reply(flow.step::<i32, &str>(Answer::Rows(0)));
    assert_eq!(
        failure_parts(&r),
        (404, ErrorCode::NotFound, "Produit avec ID -2147483648 non trouvé".to_string())
    );
}

#[test]
fn delete_of_referenced_product() {
    let (mut flow, _) = DeleteProductFlow::start::<&str>(0);
    let _ = flow.step::<i32, &str>(Answer::Flag(true));
    let r = reply(flow.step::<i32, &str>(failed(
        "update or delete on table \"products\" violates foreign key constraint \"order_items_product_id_fkey\"",
    )));
    assert_eq!(
        failure_parts(&r),
        (
            500,
            ErrorCode::DatabaseError,
            "Impossible de supprimer ce produit car il est référencé dans d'autres tables".to_string()
        )
    );
    let (mut flow, _) = DeleteProductFlow::start::<&str>(2147483647);
    let _ = flow.step::<i32, &str>(Answer::Flag(true));
    let r = reply(flow.step::<i32, &str>(failed("disk full")));
    assert_eq!(failure_parts(&r).2, "Erreur lors de la suppression du produit");
    let (mut flow, _) = DeleteProductFlow::start::<&str>(1);
    let r = reply(flow.step::<i32, &str>(failed("disk full")));
    assert_eq!(failure_parts(&r).2, "Erreur de base de données");
}

#[test]
fn status_and_error_texts() {
    assert_eq!(StatusCode::Success.as_u16(), 200);
    assert_eq!(StatusCode::Created.as_u16(), 201);
    assert_eq!(StatusCode::NotFound.as_u16(), 404);
    assert_eq!(StatusCode::Conflict.as_u16(), 409);
    assert_eq!(StatusCode::InternalServerError.as_u16(), 500);
    assert_eq!(ErrorCode::DatabaseError.to_text(), "DATABASE_ERROR");
    assert_eq!(ErrorCode::AlreadyExists.to_text(), "ALREADY_EXISTS");
    assert_eq!(ErrorCode::NotFound.to_text(), "NOT_FOUND");
}
