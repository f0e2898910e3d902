//! Properties that hold of every run of the product endpoints, whatever the
//! database answers.

use vstd::prelude::*;
use crate::products::{
    create_accepts, create_calls_left, create_product_step, delete_accepts, delete_calls_left,
    delete_product_step, not_found_reply, update_accepts, update_calls_left,
    update_product_step, AnswerView, CreateFlowView, CreateStage, DeleteStage, NextView,
    QueryView, UpdateFlowView, UpdateStage, CreateProductRequest, UpdateProductRequest,
    products_listing_reply, product_by_id_reply, product_by_reference_reply,
};
use crate::text::contains_text;
use crate::responses::{BodyView, ErrorCode, PayloadView, ReplyView, StatusCode};
use crate::text::decimal_text;

verus! {

/// Every creation makes at most two database calls and then replies once:
/// each answer lowers the calls left, and a reply is sent exactly when the
/// flow finishes, after which it takes no answer.
pub proof fn law_create_answers_once<P>(flow: CreateFlowView, answer: AnswerView<P>)
    requires
        flow.wf(),
        create_accepts(flow.stage, answer),
    ensures
        create_product_step(flow, answer).0.wf(),
        create_calls_left(create_product_step(flow, answer).0.stage) < create_calls_left(
            flow.stage,
        ),
        (create_product_step(flow, answer).1 is Respond) <==> (create_product_step(
            flow,
            answer,
        ).0.stage == CreateStage::Finished),
        forall|a: AnswerView<P>| !create_accepts(CreateStage::Finished, a),
{
}

/// Every update makes at most three database calls and then replies once.
pub proof fn law_update_answers_once<P>(flow: UpdateFlowView, answer: AnswerView<P>)
    requires
        flow.wf(),
        update_accepts(flow.stage, answer),
    ensures
        update_product_step(flow, answer).0.wf(),
        update_calls_left(update_product_step(flow, answer).0.stage) < update_calls_left(
            flow.stage,
        ),
        (update_product_step(flow, answer).1 is Respond) <==> (update_product_step(
            flow,
            answer,
        ).0.stage == UpdateStage::Finished),
        forall|a: AnswerView<P>| !update_accepts(UpdateStage::Finished, a),
{
}

/// Every deletion makes at most two database calls and then replies once.
pub proof fn law_delete_answers_once<P, B>(id: i32, stage: DeleteStage, answer: AnswerView<P>)
    requires
        delete_accepts(stage, answer),
    ensures
        delete_calls_left(delete_product_step::<P, B>(id, stage, answer).0) < delete_calls_left(
            stage,
        ),
        (delete_product_step::<P, B>(id, stage, answer).1 is Respond) <==> (delete_product_step::<
            P,
            B,
        >(id, stage, answer).0 == DeleteStage::Finished),
        forall|a: AnswerView<P>| !delete_accepts(DeleteStage::Finished, a),
{
}

/// A failed database call ends every product flow with a 500 reply.
pub proof fn law_database_failure_is_500<P, B>(
    create: CreateFlowView,
    update: UpdateFlowView,
    id: i32,
    delete_stage: DeleteStage,
    text: Seq<char>,
)
    ensures
        create_accepts(create.stage, AnswerView::<P>::Failed(text)) ==> (match create_product_step(
            create,
            AnswerView::<P>::Failed(text),
        ).1 {
            NextView::Respond(r) => r.status == StatusCode::InternalServerError,
            NextView::Ask(_) => false,
        }),
        update_accepts(update.stage, AnswerView::<P>::Failed(text)) ==> (match update_product_step(
            update,
            AnswerView::<P>::Failed(text),
        ).1 {
            NextView::Respond(r) => r.status == StatusCode::InternalServerError,
            NextView::Ask(_) => false,
        }),
        delete_accepts(delete_stage, AnswerView::<P>::Failed(text)) ==> (match delete_product_step::<
            P,
            B,
        >(id, delete_stage, AnswerView::<P>::Failed(text)).1 {
            NextView::Respond(r) => r.status == StatusCode::InternalServerError,
            NextView::Ask(_) => false,
        }),
{
}

/// A product is inserted only after the database said the body's reference
/// is free, and what is inserted is the request body; a used reference is
/// answered with 409.
pub proof fn law_insert_only_with_free_reference<P>(
    flow: CreateFlowView,
    answer: AnswerView<P>,
    body: CreateProductRequest,
)
    requires
        flow.wf(),
    ensures
        (create_product_step(flow, answer).1 == NextView::<P, CreateProductRequest>::Ask(
            QueryView::InsertProduct { body },
        )) <==> (flow.stage == CreateStage::CheckingReference && answer == AnswerView::<P>::Flag(
            false,
        ) && flow.body == Some(body)),
        flow.stage == CreateStage::CheckingReference ==> flow.reference
            == flow.body.unwrap().reference@,
        flow.stage == CreateStage::CheckingReference && answer == AnswerView::<P>::Flag(true) ==> (
        match create_product_step(flow, answer).1 {
            NextView::Respond(r) => r.status == StatusCode::Conflict,
            NextView::Ask(_) => false,
        }),
{
}

/// A product is updated only after the database said it exists and, when
/// the body changes the reference, that no other product uses that new
/// reference. The update stores the request body into the requested product
/// and asks to stamp the restocking date exactly when the body carries a
/// stock quantity.
pub proof fn law_update_only_checked_products<P>(
    flow: UpdateFlowView,
    answer: AnswerView<P>,
    asked_id: i32,
    body: UpdateProductRequest,
    restocked: bool,
)
    requires
        flow.wf(),
        update_product_step(flow, answer).1 == NextView::<P, UpdateProductRequest>::Ask(
            QueryView::UpdateProduct { id: asked_id, body, restocked },
        ),
    ensures
        asked_id == flow.id,
        restocked == (body.stock_quantity is Some),
        flow.body == Some(body),
        (flow.stage == UpdateStage::CheckingExistence && answer == AnswerView::<P>::Flag(true)
            && body.reference is None) || (flow.stage == UpdateStage::CheckingReference && answer
            == AnswerView::<P>::Flag(false) && body.reference is Some),
{
}

/// The new reference an update checks is the body's.
pub proof fn law_update_checks_body_reference<P>(
    flow: UpdateFlowView,
    answer: AnswerView<P>,
    reference: Seq<char>,
    asked_id: i32,
)
    requires
        flow.wf(),
        update_product_step(flow, answer).1 == NextView::<P, UpdateProductRequest>::Ask(
            QueryView::ReferenceTakenByOther { reference, id: asked_id },
        ),
    ensures
        asked_id == flow.id,
        flow.stage == UpdateStage::CheckingExistence,
        flow.body.unwrap().reference matches Some(r) && r@ == reference,
{
}

/// A missing product is answered with 404 and never written, by an update or
/// a deletion.
pub proof fn law_missing_product_is_404<P, B>(flow: UpdateFlowView, id: i32)
    requires
        flow.stage == UpdateStage::CheckingExistence,
    ensures
        update_product_step(flow, AnswerView::<P>::Flag(false)).1 == NextView::<
            P,
            UpdateProductRequest,
        >::Respond(
            not_found_reply::<P>(flow.id),
        ),
        delete_product_step::<P, B>(id, DeleteStage::CheckingExistence, AnswerView::<P>::Flag(false))
            == (DeleteStage::Finished, NextView::<P, B>::Respond(not_found_reply::<P>(id))),
{
}

/// A product is deleted only after the database said it exists; a deletion
/// is answered 200 exactly when it removed a row, and 404 otherwise.
pub proof fn law_delete_reports_removal<P, B>(
    id: i32,
    stage: DeleteStage,
    answer: AnswerView<P>,
    rows: u64,
)
    ensures
        (delete_product_step::<P, B>(id, stage, answer).1 is Ask) ==> (stage
            == DeleteStage::CheckingExistence && answer == AnswerView::<P>::Flag(true)),
        match delete_product_step::<P, B>(id, DeleteStage::Deleting, AnswerView::<P>::Rows(rows)).1 {
            NextView::Respond(r) => (r.status == StatusCode::Success) == (rows > 0) && (rows == 0
                ==> r == not_found_reply::<P>(id)),
            NextView::Ask(_) => false,
        },
{
}

/// A creation answers 201 exactly when the insertion returned a product,
/// and then with that product alone; it answers 409 exactly when the
/// database said the body's reference is used, naming that reference.
pub proof fn law_create_replies<P>(flow: CreateFlowView, answer: AnswerView<P>)
    requires
        flow.wf(),
        create_accepts(flow.stage, answer),
    ensures
        (create_product_step(flow, answer).1 matches NextView::Respond(r) && r.status
            == StatusCode::Created) <==> (flow.stage == CreateStage::Inserting && answer is One),
        forall|p: P|
            flow.stage == CreateStage::Inserting && answer == AnswerView::One(p) ==> #[trigger] create_product_step(flow, AnswerView::One(p)).1
                == NextView::<P, CreateProductRequest>::Respond(
                ReplyView {
                    status: StatusCode::Created,
                    body: BodyView::Data(PayloadView::Product(p)),
                },
            ),
        (create_product_step(flow, answer).1 matches NextView::Respond(r) && r.status
            == StatusCode::Conflict) <==> (flow.stage == CreateStage::CheckingReference && answer
            == AnswerView::<P>::Flag(true)),
        flow.stage == CreateStage::CheckingReference && answer == AnswerView::<P>::Flag(true)
            ==> create_product_step(flow, answer).1 == NextView::<P, CreateProductRequest>::Respond(
            ReplyView {
                status: StatusCode::Conflict,
                body: BodyView::Failure {
                    code: ErrorCode::AlreadyExists,
                    message: "Un produit avec la référence '"@ + flow.body.unwrap().reference@
                        + "' existe déjà"@,
                },
            },
        ),
        flow.stage == CreateStage::CheckingReference && answer == AnswerView::<P>::Flag(false)
            ==> create_product_step(flow, answer) == (
            CreateFlowView { reference: flow.reference, body: None, stage: CreateStage::Inserting },
            NextView::<P, CreateProductRequest>::Ask(
                QueryView::InsertProduct { body: flow.body.unwrap() },
            ),
        ),
{
}

/// An update answers 200 exactly when the write returned a product, and then
/// with that product alone, whether or not the body changes the reference;
/// it answers 409 exactly when the database said another product uses the
/// body's new reference, naming that reference; it answers 404 exactly when
/// the product does not exist. When the product exists, the update is asked
/// at once if the body keeps the reference, and after the reference check
/// said the new one is free otherwise.
pub proof fn law_update_replies<P>(flow: UpdateFlowView, answer: AnswerView<P>)
    requires
        flow.wf(),
        update_accepts(flow.stage, answer),
    ensures
        (update_product_step(flow, answer).1 matches NextView::Respond(r) && r.status
            == StatusCode::Success) <==> (flow.stage == UpdateStage::Updating && answer is One),
        forall|p: P|
            flow.stage == UpdateStage::Updating && answer == AnswerView::One(p) ==> #[trigger] update_product_step(flow, AnswerView::One(p)).1
                == NextView::<P, UpdateProductRequest>::Respond(
                ReplyView {
                    status: StatusCode::Success,
                    body: BodyView::Data(PayloadView::Product(p)),
                },
            ),
        (update_product_step(flow, answer).1 matches NextView::Respond(r) && r.status
            == StatusCode::Conflict) <==> (flow.stage == UpdateStage::CheckingReference && answer
            == AnswerView::<P>::Flag(true)),
        flow.stage == UpdateStage::CheckingReference && answer == AnswerView::<P>::Flag(true)
            ==> update_product_step(flow, answer).1 == NextView::<P, UpdateProductRequest>::Respond(
            ReplyView {
                status: StatusCode::Conflict,
                body: BodyView::Failure {
                    code: ErrorCode::AlreadyExists,
                    message: "Un autre produit utilise déjà la référence '"@
                        + flow.body.unwrap().reference.unwrap()@ + "'"@,
                },
            },
        ),
        (update_product_step(flow, answer).1 matches NextView::Respond(r) && r.status
            == StatusCode::NotFound) <==> (flow.stage == UpdateStage::CheckingExistence && answer
            == AnswerView::<P>::Flag(false)),
        flow.stage == UpdateStage::CheckingExistence && answer == AnswerView::<P>::Flag(true)
            ==> update_product_step(flow, answer).1 == (match flow.body.unwrap().reference {
            None => NextView::<P, UpdateProductRequest>::Ask(
                QueryView::UpdateProduct {
                    id: flow.id,
                    body: flow.body.unwrap(),
                    restocked: flow.body.unwrap().stock_quantity is Some,
                },
            ),
            Some(r) => NextView::<P, UpdateProductRequest>::Ask(
                QueryView::ReferenceTakenByOther { reference: r@, id: flow.id },
            ),
        }),
        flow.stage == UpdateStage::CheckingReference && answer == AnswerView::<P>::Flag(false)
            ==> update_product_step(flow, answer).1 == NextView::<P, UpdateProductRequest>::Ask(
            QueryView::UpdateProduct {
                id: flow.id,
                body: flow.body.unwrap(),
                restocked: flow.body.unwrap().stock_quantity is Some,
            },
        ),
{
}

/// A deletion asks to delete the product as soon as the database said it
/// exists; it answers 200 exactly when the deletion removed a row, and 404
/// exactly when the product does not exist or nothing was removed, naming
/// the product's id.
pub proof fn law_delete_replies<P, B>(id: i32, stage: DeleteStage, answer: AnswerView<P>)
    requires
        delete_accepts(stage, answer),
    ensures
        stage == DeleteStage::CheckingExistence && answer == AnswerView::<P>::Flag(true)
            ==> delete_product_step::<P, B>(id, stage, answer) == (
            DeleteStage::Deleting,
            NextView::<P, B>::Ask(QueryView::DeleteProduct { id }),
        ),
        (delete_product_step::<P, B>(id, stage, answer).1 matches NextView::Respond(r) && r.status
            == StatusCode::Success) <==> (stage == DeleteStage::Deleting && (answer matches AnswerView::Rows(
            n,
        ) && n > 0)),
        (stage == DeleteStage::Deleting && (answer matches AnswerView::Rows(n) && n > 0))
            ==> delete_product_step::<P, B>(id, stage, answer).1 == NextView::<P, B>::Respond(
            ReplyView {
                status: StatusCode::Success,
                body: BodyView::Success {
                    data: PayloadView::Nothing,
                    message: "Product deleted successfully"@,
                },
            },
        ),
        (delete_product_step::<P, B>(id, stage, answer).1 matches NextView::Respond(r) && r.status
            == StatusCode::NotFound) <==> ((stage == DeleteStage::CheckingExistence && answer
            == AnswerView::<P>::Flag(false)) || (stage == DeleteStage::Deleting && answer
            == AnswerView::<P>::Rows(0))),
        match delete_product_step::<P, B>(id, stage, answer).1 {
            NextView::Respond(r) => r.status == StatusCode::NotFound ==> r.body == (BodyView::<
                P,
            >::Failure {
                code: ErrorCode::NotFound,
                message: "Produit avec ID "@ + decimal_text(id as int) + " non trouvé"@,
            }),
            NextView::Ask(_) => true,
        },
{
}

/// A read answers 200 with what the database returned (the list or record
/// alone, except the lookup by reference, which adds its message) and 500
/// with `DATABASE_ERROR` when the lookup failed.
pub proof fn law_read_replies<P>(products: Seq<P>, product: P, text: Seq<char>)
    ensures
        products_listing_reply::<P>(Ok(products)) == (ReplyView {
            status: StatusCode::Success,
            body: BodyView::Data(PayloadView::Products(products)),
        }),
        product_by_id_reply::<P>(Ok(product)) == (ReplyView {
            status: StatusCode::Success,
            body: BodyView::Data(PayloadView::Product(product)),
        }),
        product_by_reference_reply::<P>(Ok(product)) == (ReplyView {
            status: StatusCode::Success,
            body: BodyView::Success {
                data: PayloadView::Product(product),
                message: "Product retrieved successfully"@,
            },
        }),
        products_listing_reply::<P>(Err(text)) == lookup_failure::<P>(),
        product_by_id_reply::<P>(Err(text)) == lookup_failure::<P>(),
        product_by_reference_reply::<P>(Err(text)) == lookup_failure::<P>(),
{
}

/// The reply to a failed lookup.
pub open spec fn lookup_failure<P>() -> ReplyView<P> {
    ReplyView {
        status: StatusCode::InternalServerError,
        body: BodyView::Failure {
            code: ErrorCode::DatabaseError,
            message: "Erreur de base de données"@,
        },
    }
}

/// A failed existence or reference check is answered with the lookup
/// failure; a failed insertion names an unknown supplier when the database
/// reports a broken foreign key; a failed update and a failed deletion have
/// their own messages, the deletion naming the tables that still refer to
/// the product when the database reports a broken foreign key.
pub proof fn law_failure_replies<P, B>(
    create: CreateFlowView,
    update: UpdateFlowView,
    id: i32,
    delete_stage: DeleteStage,
    text: Seq<char>,
)
    requires
        create.wf(),
        update.wf(),
        delete_stage != DeleteStage::Finished,
        create.stage != CreateStage::Finished,
        update.stage != UpdateStage::Finished,
    ensures
        create_product_step(create, AnswerView::<P>::Failed(text)).1 == NextView::<
            P,
            CreateProductRequest,
        >::Respond(
            if create.stage == CreateStage::CheckingReference {
                lookup_failure::<P>()
            } else if contains_text(text, "foreign key constraint"@) {
                ReplyView {
                    status: StatusCode::InternalServerError,
                    body: BodyView::Failure {
                        code: ErrorCode::NotFound,
                        message: "supplier_id invalide"@,
                    },
                }
            } else {
                ReplyView {
                    status: StatusCode::InternalServerError,
                    body: BodyView::Failure {
                        code: ErrorCode::DatabaseError,
                        message: "Erreur lors de la création du produit"@,
                    },
                }
            },
        ),
        update_product_step(update, AnswerView::<P>::Failed(text)).1 == NextView::<
            P,
            UpdateProductRequest,
        >::Respond(
            if update.stage == UpdateStage::Updating {
                ReplyView {
                    status: StatusCode::InternalServerError,
                    body: BodyView::Failure {
                        code: ErrorCode::DatabaseError,
                        message: "Erreur lors de la mise à jour du produit"@,
                    },
                }
            } else {
                lookup_failure::<P>()
            },
        ),
        delete_product_step::<P, B>(id, delete_stage, AnswerView::<P>::Failed(text)).1
            == NextView::<P, B>::Respond(
            if delete_stage == DeleteStage::CheckingExistence {
                lookup_failure::<P>()
            } else if contains_text(text, "foreign key constraint"@) {
                ReplyView {
                    status: StatusCode::InternalServerError,
                    body: BodyView::Failure {
                        code: ErrorCode::DatabaseError,
                        message: "Impossible de supprimer ce produit car il est référencé dans d'autres tables"@,
                    },
                }
            } else {
                ReplyView {
                    status: StatusCode::InternalServerError,
                    body: BodyView::Failure {
                        code: ErrorCode::DatabaseError,
                        message: "Erreur lors de la suppression du produit"@,
                    },
                }
            },
        ),
{
}

} // verus!
