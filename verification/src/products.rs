//! The product endpoints. Each endpoint asks the database one or more
//! questions and decides, after each answer, whether to ask the next one or
//! to reply to the client. The decisions live here; running the queries is
//! left to the caller, which feeds every answer back into the flow.

use vstd::prelude::*;
use crate::responses::{
    data_only, data_reply, failure, failure_reply, success, success_reply, ErrorCode, Payload, PayloadView, Reply,
    ReplyView, StatusCode,
};
use crate::text::{append_decimal, contains_str, contains_text, decimal_text};

verus! {

// ---------------------------------------------------------------- questions and answers

/// A failed database call, described by the text of its error.
pub struct DbFailure {
    pub text: String,
}

/// What a database call returned.
pub enum Answer<P> {
    /// Answer to an existence question.
    Flag(bool),
    /// One product record.
    One(P),
    /// Number of rows a deletion removed.
    Rows(u64),
    /// The call failed.
    Failed(DbFailure),
}

/// Mathematical form of an [`Answer`].
pub enum AnswerView<P> {
    Flag(bool),
    One(P),
    Rows(u64),
    Failed(Seq<char>),
}

impl<P> View for Answer<P> {
    type V = AnswerView<P>;

    open spec fn view(&self) -> AnswerView<P> {
        match self {
            Answer::Flag(b) => AnswerView::Flag(*b),
            Answer::One(p) => AnswerView::One(*p),
            Answer::Rows(n) => AnswerView::Rows(*n),
            Answer::Failed(f) => AnswerView::Failed(f.text@),
        }
    }
}

/// A question for the database. `B` is the request body that a write stores.
pub enum ProductQuery<B> {
    /// Does a product with this id exist?
    ProductExists { id: i32 },
    /// Is this reference used by some product?
    ReferenceTaken { reference: String },
    /// Is this reference used by a product other than `id`?
    ReferenceTakenByOther { reference: String, id: i32 },
    /// Insert a product described by `body`.
    InsertProduct { body: B },
    /// Update product `id` with `body`; `restocked` asks to set the
    /// restocking date to now (the body carries a stock quantity).
    UpdateProduct { id: i32, body: B, restocked: bool },
    /// Delete product `id`.
    DeleteProduct { id: i32 },
}

/// Mathematical form of a [`ProductQuery`].
pub enum QueryView<B> {
    ProductExists { id: i32 },
    ReferenceTaken { reference: Seq<char> },
    ReferenceTakenByOther { reference: Seq<char>, id: i32 },
    InsertProduct { body: B },
    UpdateProduct { id: i32, body: B, restocked: bool },
    DeleteProduct { id: i32 },
}

impl<B> View for ProductQuery<B> {
    type V = QueryView<B>;

    open spec fn view(&self) -> QueryView<B> {
        match self {
            ProductQuery::ProductExists { id } => QueryView::ProductExists { id: *id },
            ProductQuery::ReferenceTaken { reference } => QueryView::ReferenceTaken {
                reference: reference@,
            },
            ProductQuery::ReferenceTakenByOther { reference, id } =>
                QueryView::ReferenceTakenByOther { reference: reference@, id: *id },
            ProductQuery::InsertProduct { body } => QueryView::InsertProduct { body: *body },
            ProductQuery::UpdateProduct { id, body, restocked } => QueryView::UpdateProduct {
                id: *id,
                body: *body,
                restocked: *restocked,
            },
            ProductQuery::DeleteProduct { id } => QueryView::DeleteProduct { id: *id },
        }
    }
}

/// What a flow does next: ask the database, or reply to the client.
pub enum Next<P, B> {
    Ask(ProductQuery<B>),
    Respond(Reply<P>),
}

/// Mathematical form of a [`Next`].
pub enum NextView<P, B> {
    Ask(QueryView<B>),
    Respond(ReplyView<P>),
}

impl<P, B> View for Next<P, B> {
    type V = NextView<P, B>;

    open spec fn view(&self) -> NextView<P, B> {
        match self {
            Next::Ask(q) => NextView::Ask(q@),
            Next::Respond(r) => NextView::Respond(r@),
        }
    }
}

// ---------------------------------------------------------------- the replies

/// Text that marks a database error as a violated foreign key.
pub open spec fn foreign_key_marker() -> Seq<char> {
    "foreign key constraint"@
}

/// 500 with `DATABASE_ERROR`: a lookup failed.
pub open spec fn database_error_reply<P>() -> ReplyView<P> {
    failure_reply(
        StatusCode::InternalServerError,
        ErrorCode::DatabaseError,
        "Erreur de base de données"@,
    )
}

/// Message of a 404 for product `id`.
pub open spec fn not_found_message(id: i32) -> Seq<char> {
    "Produit avec ID "@ + decimal_text(id as int) + " non trouvé"@
}

/// 404 with `NOT_FOUND`: no product `id`.
pub open spec fn not_found_reply<P>(id: i32) -> ReplyView<P> {
    failure_reply(StatusCode::NotFound, ErrorCode::NotFound, not_found_message(id))
}

/// Message of a 409 when creating a product whose reference is used.
pub open spec fn reference_exists_message(reference: Seq<char>) -> Seq<char> {
    "Un produit avec la référence '"@ + reference + "' existe déjà"@
}

/// Message of a 409 when updating a product to a reference another one uses.
pub open spec fn reference_used_message(reference: Seq<char>) -> Seq<char> {
    "Un autre produit utilise déjà la référence '"@ + reference + "'"@
}

/// Reply to a failed insertion, with the text of the database error.
pub open spec fn insert_failure_reply<P>(text: Seq<char>) -> ReplyView<P> {
    if contains_text(text, foreign_key_marker()) {
        failure_reply(StatusCode::InternalServerError, ErrorCode::NotFound, "supplier_id invalide"@)
    } else {
        failure_reply(
            StatusCode::InternalServerError,
            ErrorCode::DatabaseError,
            "Erreur lors de la création du produit"@,
        )
    }
}

/// Reply to a failed update.
pub open spec fn update_failure_reply<P>() -> ReplyView<P> {
    failure_reply(
        StatusCode::InternalServerError,
        ErrorCode::DatabaseError,
        "Erreur lors de la mise à jour du produit"@,
    )
}

/// Reply to a failed deletion, with the text of the database error.
pub open spec fn delete_failure_reply<P>(text: Seq<char>) -> ReplyView<P> {
    if contains_text(text, foreign_key_marker()) {
        failure_reply(
            StatusCode::InternalServerError,
            ErrorCode::DatabaseError,
            "Impossible de supprimer ce produit car il est référencé dans d'autres tables"@,
        )
    } else {
        failure_reply(
            StatusCode::InternalServerError,
            ErrorCode::DatabaseError,
            "Erreur lors de la suppression du produit"@,
        )
    }
}

fn database_error<P>() -> (r: Reply<P>)
    ensures
        r@ == database_error_reply::<P>(),
{
    failure(
        StatusCode::InternalServerError,
        ErrorCode::DatabaseError,
        String::from_str("Erreur de base de données"),
    )
}

fn not_found<P>(id: i32) -> (r: Reply<P>)
    ensures
        r@ == not_found_reply::<P>(id),
{
    let mut message = String::from_str("Produit avec ID ");
    append_decimal(&mut message, id);
    message.append(" non trouvé");
    failure(StatusCode::NotFound, ErrorCode::NotFound, message)
}

fn quoted_message(prefix: &str, reference: &String, suffix: &str) -> (m: String)
    ensures
        m@ == prefix@ + reference@ + suffix@,
{
    let mut message = String::from_str(prefix);
    message.append(reference.as_str());
    message.append(suffix);
    message
}

fn is_foreign_key_violation(failure: &DbFailure) -> (b: bool)
    ensures
        b == contains_text(failure.text@, foreign_key_marker()),
{
    contains_str(failure.text.as_str(), "foreign key constraint")
}

// ---------------------------------------------------------------- reads

/// Mathematical form of a database result.
pub open spec fn result_view<T>(r: Result<T, DbFailure>) -> Result<T, Seq<char>> {
    match r {
        Ok(t) => Ok(t),
        Err(f) => Err(f.text@),
    }
}

/// Mathematical form of a listing result.
pub open spec fn list_result_view<P>(r: Result<Vec<P>, DbFailure>) -> Result<Seq<P>, Seq<char>> {
    match r {
        Ok(v) => Ok(v@),
        Err(f) => Err(f.text@),
    }
}

/// Reply of `GET /products`: the list itself, or 500 on a failed lookup.
pub open spec fn products_listing_reply<P>(answer: Result<Seq<P>, Seq<char>>) -> ReplyView<P> {
    match answer {
        Ok(products) => data_reply(StatusCode::Success, PayloadView::Products(products)),
        Err(_) => database_error_reply(),
    }
}

/// Reply of `GET /products/:id`: the record itself, or 500 on a failed
/// lookup.
pub open spec fn product_by_id_reply<P>(answer: Result<P, Seq<char>>) -> ReplyView<P> {
    match answer {
        Ok(product) => data_reply(StatusCode::Success, PayloadView::Product(product)),
        Err(_) => database_error_reply(),
    }
}

/// Reply of `GET /products/reference/:reference`: the record with a
/// message, or 500 on a failed lookup.
pub open spec fn product_by_reference_reply<P>(answer: Result<P, Seq<char>>) -> ReplyView<P> {
    match answer {
        Ok(product) => success_reply(
            StatusCode::Success,
            PayloadView::Product(product),
            "Product retrieved successfully"@,
        ),
        Err(_) => database_error_reply(),
    }
}

/// Reply of `GET /products`, given the list the database returned: the list
/// itself.
pub fn get_products_reply<P>(answer: Result<Vec<P>, DbFailure>) -> (r: Reply<P>)
    ensures
        r@ == products_listing_reply(list_result_view(answer)),
{
    match answer {
        Ok(products) => data_only(StatusCode::Success, Payload::Products(products)),
        Err(_) => database_error(),
    }
}

/// Reply of `GET /products/:id`, given the record the database returned: the
/// record itself.
pub fn get_product_by_id_reply<P>(answer: Result<P, DbFailure>) -> (r: Reply<P>)
    ensures
        r@ == product_by_id_reply(result_view(answer)),
{
    match answer {
        Ok(product) => data_only(StatusCode::Success, Payload::Product(product)),
        Err(_) => database_error(),
    }
}

/// Reply of `GET /products/reference/:reference`, given the record the
/// database returned: the record with a message.
pub fn get_product_by_reference_reply<P>(answer: Result<P, DbFailure>) -> (r: Reply<P>)
    ensures
        r@ == product_by_reference_reply(result_view(answer)),
{
    match answer {
        Ok(product) => success(
            StatusCode::Success,
            Payload::Product(product),
            String::from_str("Product retrieved successfully"),
        ),
        Err(_) => database_error(),
    }
}

// ---------------------------------------------------------------- request bodies

/// Body of `POST /products`.
pub struct CreateProductRequest {
    pub name: String,
    pub category: String,
    pub reference: String,
    pub supplier_id: i32,
    pub stock_quantity: i32,
    pub buying_price: rust_decimal::Decimal,
    pub status: String,
}

/// Body of `PUT /products/:id`; an absent field is left unchanged.
pub struct UpdateProductRequest {
    pub name: Option<String>,
    pub category: Option<String>,
    pub reference: Option<String>,
    pub supplier_id: Option<i32>,
    pub stock_quantity: Option<i32>,
    pub buying_price: Option<rust_decimal::Decimal>,
    pub status: Option<String>,
}

fn copy_text(s: &String) -> (c: String)
    ensures
        c@ == s@,
{
    s.clone()
}

fn copy_optional_text(o: &Option<String>) -> (c: Option<String>)
    ensures
        option_text(c) == option_text(*o),
{
    match o {
        Some(s) => Some(copy_text(s)),
        None => None,
    }
}

// ---------------------------------------------------------------- POST /products

/// Where a product creation stands.
#[derive(Clone, Copy, Debug, PartialEq, Eq, Structural)]
pub enum CreateStage {
    /// Waiting to learn whether the reference is used.
    CheckingReference,
    /// Waiting for the insertion.
    Inserting,
    /// The reply was sent.
    Finished,
}

/// Upper bound on the database calls a creation still makes.
pub open spec fn create_calls_left(stage: CreateStage) -> nat {
    match stage {
        CreateStage::CheckingReference => 2,
        CreateStage::Inserting => 1,
        CreateStage::Finished => 0,
    }
}

/// The answers a creation can be given at `stage`.
pub open spec fn create_accepts<P>(stage: CreateStage, answer: AnswerView<P>) -> bool {
    match stage {
        CreateStage::CheckingReference => answer is Flag || answer is Failed,
        CreateStage::Inserting => answer is One || answer is Failed,
        CreateStage::Finished => false,
    }
}

/// A `POST /products` in progress.
pub struct CreateProductFlow {
    /// The reference the body asks for.
    pub reference: String,
    /// The body, until it is handed to the insertion.
    pub body: Option<CreateProductRequest>,
    pub stage: CreateStage,
}

/// Mathematical form of a [`CreateProductFlow`].
pub struct CreateFlowView {
    pub reference: Seq<char>,
    pub body: Option<CreateProductRequest>,
    pub stage: CreateStage,
}

impl View for CreateProductFlow {
    type V = CreateFlowView;

    open spec fn view(&self) -> CreateFlowView {
        CreateFlowView { reference: self.reference@, body: self.body, stage: self.stage }
    }
}

impl CreateFlowView {
    /// The body is held exactly until the reference check is answered, and
    /// the reference checked is the body's.
    pub open spec fn wf(self) -> bool {
        &&& (self.stage == CreateStage::CheckingReference) == (self.body is Some)
        &&& self.body matches Some(b) ==> self.reference == b.reference@
    }

    /// This flow with `stage`, the body handed over or dropped.
    pub open spec fn moved_to(self, stage: CreateStage) -> CreateFlowView {
        CreateFlowView { reference: self.reference, body: None, stage }
    }
}

/// One step of `POST /products`: the flow after `answer`, and what to do next.
pub open spec fn create_product_step<P>(flow: CreateFlowView, answer: AnswerView<P>) -> (
    CreateFlowView,
    NextView<P, CreateProductRequest>,
) {
    match (flow.stage, answer) {
        (CreateStage::CheckingReference, AnswerView::Flag(true)) => (
            flow.moved_to(CreateStage::Finished),
            NextView::Respond(
                failure_reply(
                    StatusCode::Conflict,
                    ErrorCode::AlreadyExists,
                    reference_exists_message(flow.reference),
                ),
            ),
        ),
        (CreateStage::CheckingReference, AnswerView::Flag(false)) => (
            flow.moved_to(CreateStage::Inserting),
            NextView::Ask(QueryView::InsertProduct { body: flow.body.unwrap() }),
        ),
        (CreateStage::Inserting, AnswerView::One(product)) => (
            flow.moved_to(CreateStage::Finished),
            NextView::Respond(data_reply(StatusCode::Created, PayloadView::Product(product))),
        ),
        (CreateStage::Inserting, AnswerView::Failed(text)) => (
            flow.moved_to(CreateStage::Finished),
            NextView::Respond(insert_failure_reply(text)),
        ),
        _ => (flow.moved_to(CreateStage::Finished), NextView::Respond(database_error_reply())),
    }
}

impl CreateProductFlow {
    /// Starts a creation of `body`: the first question is whether the body's
    /// reference is used.
    pub fn start(body: CreateProductRequest) -> (res: (
        CreateProductFlow,
        ProductQuery<CreateProductRequest>,
    ))
        ensures
            res.0@ == (CreateFlowView {
                reference: body.reference@,
                body: Some(body),
                stage: CreateStage::CheckingReference,
            }),
            res.0@.wf(),
            res.1@ == (QueryView::<CreateProductRequest>::ReferenceTaken {
                reference: body.reference@,
            }),
    {
        let reference = copy_text(&body.reference);
        let query = ProductQuery::ReferenceTaken { reference: copy_text(&body.reference) };
        (CreateProductFlow { reference, body: Some(body), stage: CreateStage::CheckingReference }, query)
    }

    /// Takes the answer to the pending question and says what comes next.
    pub fn step<P>(&mut self, answer: Answer<P>) -> (next: Next<P, CreateProductRequest>)
        requires
            old(self)@.wf(),
            create_accepts(old(self).stage, answer@),
        ensures
            final(self)@.wf(),
            (final(self)@, next@) == create_product_step(old(self)@, answer@),
    {
        let body = self.body.take();
        self.stage = CreateStage::Finished;
        match body {
            Some(body) => {
                match answer {
                    Answer::Flag(true) => {
                        let message = quoted_message(
                            "Un produit avec la référence '",
                            &self.reference,
                            "' existe déjà",
                        );
                        Next::Respond(failure(StatusCode::Conflict, ErrorCode::AlreadyExists, message))
                    },
                    Answer::Flag(false) => {
                        self.stage = CreateStage::Inserting;
                        Next::Ask(ProductQuery::InsertProduct { body })
                    },
                    _ => Next::Respond(database_error()),
                }
            },
            None => {
                match answer {
                    Answer::One(product) => Next::Respond(
                        data_only(StatusCode::Created, Payload::Product(product)),
                    ),
                    Answer::Failed(f) => {
                        if is_foreign_key_violation(&f) {
                            Next::Respond(
                                failure(
                                    StatusCode::InternalServerError,
                                    ErrorCode::NotFound,
                                    String::from_str("supplier_id invalide"),
                                ),
                            )
                        } else {
                            Next::Respond(
                                failure(
                                    StatusCode::InternalServerError,
                                    ErrorCode::DatabaseError,
                                    String::from_str("Erreur lors de la création du produit"),
                                ),
                            )
                        }
                    },
                    _ => Next::Respond(database_error()),
                }
            },
        }
    }
}

// ---------------------------------------------------------------- PUT /products/:id

/// Where a product update stands.
#[derive(Clone, Copy, Debug, PartialEq, Eq, Structural)]
pub enum UpdateStage {
    /// Waiting to learn whether the product exists.
    CheckingExistence,
    /// Waiting to learn whether another product uses the new reference.
    CheckingReference,
    /// Waiting for the update.
    Updating,
    /// The reply was sent.
    Finished,
}

/// Upper bound on the database calls an update still makes.
pub open spec fn update_calls_left(stage: UpdateStage) -> nat {
    match stage {
        UpdateStage::CheckingExistence => 3,
        UpdateStage::CheckingReference => 2,
        UpdateStage::Updating => 1,
        UpdateStage::Finished => 0,
    }
}

/// The answers an update can be given at `stage`.
pub open spec fn update_accepts<P>(stage: UpdateStage, answer: AnswerView<P>) -> bool {
    match stage {
        UpdateStage::CheckingExistence => answer is Flag || answer is Failed,
        UpdateStage::CheckingReference => answer is Flag || answer is Failed,
        UpdateStage::Updating => answer is One || answer is Failed,
        UpdateStage::Finished => false,
    }
}

/// Mathematical form of an optional text.
pub open spec fn option_text(o: Option<String>) -> Option<Seq<char>> {
    match o {
        Some(s) => Some(s@),
        None => None,
    }
}

/// A `PUT /products/:id` in progress.
pub struct UpdateProductFlow {
    /// The product to update.
    pub id: i32,
    /// The new reference the body asks for, if any.
    pub reference: Option<String>,
    /// The body carries a stock quantity.
    pub restock: bool,
    /// The body, until it is handed to the update.
    pub body: Option<UpdateProductRequest>,
    pub stage: UpdateStage,
}

/// Mathematical form of an [`UpdateProductFlow`].
pub struct UpdateFlowView {
    pub id: i32,
    pub reference: Option<Seq<char>>,
    pub restock: bool,
    pub body: Option<UpdateProductRequest>,
    pub stage: UpdateStage,
}

impl View for UpdateProductFlow {
    type V = UpdateFlowView;

    open spec fn view(&self) -> UpdateFlowView {
        UpdateFlowView {
            id: self.id,
            reference: option_text(self.reference),
            restock: self.restock,
            body: self.body,
            stage: self.stage,
        }
    }
}

impl UpdateFlowView {
    /// The body is held exactly until it is handed to the update; the
    /// reference checked and the restocking flag are the body's new reference
    /// and whether it carries a stock quantity, and the reference is checked
    /// only when the body changes it.
    pub open spec fn wf(self) -> bool {
        &&& (self.stage == UpdateStage::CheckingExistence || self.stage
            == UpdateStage::CheckingReference) == (self.body is Some)
        &&& self.body matches Some(b) ==> self.reference == option_text(b.reference)
            && self.restock == (b.stock_quantity is Some)
        &&& self.stage == UpdateStage::CheckingReference ==> self.reference is Some
    }

    /// This flow with `stage` and `body`.
    pub open spec fn moved_to(self, stage: UpdateStage, body: Option<UpdateProductRequest>) -> UpdateFlowView {
        UpdateFlowView { stage, body, ..self }
    }

    /// The update question of this flow, storing `body`.
    pub open spec fn update_query(self, body: UpdateProductRequest) -> QueryView<UpdateProductRequest> {
        QueryView::UpdateProduct { id: self.id, body, restocked: self.restock }
    }
}

/// One step of `PUT /products/:id`: the flow after `answer`, and what to do
/// next.
pub open spec fn update_product_step<P>(flow: UpdateFlowView, answer: AnswerView<P>) -> (
    UpdateFlowView,
    NextView<P, UpdateProductRequest>,
) {
    match (flow.stage, answer) {
        (UpdateStage::CheckingExistence, AnswerView::Flag(false)) => (
            flow.moved_to(UpdateStage::Finished, None),
            NextView::Respond(not_found_reply(flow.id)),
        ),
        (UpdateStage::CheckingExistence, AnswerView::Flag(true)) => match flow.reference {
            Some(r) => (
                flow.moved_to(UpdateStage::CheckingReference, flow.body),
                NextView::Ask(QueryView::ReferenceTakenByOther { reference: r, id: flow.id }),
            ),
            None => (
                flow.moved_to(UpdateStage::Updating, None),
                NextView::Ask(flow.update_query(flow.body.unwrap())),
            ),
        },
        (UpdateStage::CheckingReference, AnswerView::Flag(true)) => (
            flow.moved_to(UpdateStage::Finished, None),
            NextView::Respond(
                failure_reply(
                    StatusCode::Conflict,
                    ErrorCode::AlreadyExists,
                    reference_used_message(flow.reference.unwrap()),
                ),
            ),
        ),
        (UpdateStage::CheckingReference, AnswerView::Flag(false)) => (
            flow.moved_to(UpdateStage::Updating, None),
            NextView::Ask(flow.update_query(flow.body.unwrap())),
        ),
        (UpdateStage::Updating, AnswerView::One(product)) => (
            flow.moved_to(UpdateStage::Finished, None),
            NextView::Respond(data_reply(StatusCode::Success, PayloadView::Product(product))),
        ),
        (UpdateStage::Updating, AnswerView::Failed(_)) => (
            flow.moved_to(UpdateStage::Finished, None),
            NextView::Respond(update_failure_reply()),
        ),
        _ => (flow.moved_to(UpdateStage::Finished, None), NextView::Respond(database_error_reply())),
    }
}

impl UpdateProductFlow {
    /// Starts an update of product `id` with `body`: the first question is
    /// whether the product exists. The flow keeps the body's new reference
    /// and whether the body carries a stock quantity.
    pub fn start(id: i32, body: UpdateProductRequest) -> (res: (
        UpdateProductFlow,
        ProductQuery<UpdateProductRequest>,
    ))
        ensures
            res.0@ == (UpdateFlowView {
                id,
                reference: option_text(body.reference),
                restock: body.stock_quantity is Some,
                body: Some(body),
                stage: UpdateStage::CheckingExistence,
            }),
            res.0@.wf(),
            res.1@ == (QueryView::<UpdateProductRequest>::ProductExists { id }),
    {
        let reference = copy_optional_text(&body.reference);
        let restock = body.stock_quantity.is_some();
        (
            UpdateProductFlow {
                id,
                reference,
                restock,
                body: Some(body),
                stage: UpdateStage::CheckingExistence,
            },
            ProductQuery::ProductExists { id },
        )
    }

    /// Takes the answer to the pending question and says what comes next.
    pub fn step<P>(&mut self, answer: Answer<P>) -> (next: Next<P, UpdateProductRequest>)
        requires
            old(self)@.wf(),
            update_accepts(old(self).stage, answer@),
        ensures
            final(self)@.wf(),
            (final(self)@, next@) == update_product_step(old(self)@, answer@),
    {
        let id = self.id;
        let stage = self.stage;
        let body = self.body.take();
        self.stage = UpdateStage::Finished;
        match stage {
            UpdateStage::CheckingExistence => {
                match answer {
                    Answer::Flag(false) => Next::Respond(not_found(id)),
                    Answer::Flag(true) => {
                        match &self.reference {
                            Some(r) => {
                                let reference = r.clone();
                                self.stage = UpdateStage::CheckingReference;
                                self.body = body;
                                Next::Ask(ProductQuery::ReferenceTakenByOther { reference, id })
                            },
                            None => {
                                self.stage = UpdateStage::Updating;
                                Next::Ask(
                                    ProductQuery::UpdateProduct {
                                        id,
                                        body: body.unwrap(),
                                        restocked: self.restock,
                                    },
                                )
                            },
                        }
                    },
                    _ => Next::Respond(database_error()),
                }
            },
            UpdateStage::CheckingReference => {
                match answer {
                    Answer::Flag(true) => {
                        let message = match &self.reference {
                            Some(r) => quoted_message(
                                "Un autre produit utilise déjà la référence '",
                                r,
                                "'",
                            ),
                            None => String::new(),
                        };
                        Next::Respond(failure(StatusCode::Conflict, ErrorCode::AlreadyExists, message))
                    },
                    Answer::Flag(false) => {
                        self.stage = UpdateStage::Updating;
                        Next::Ask(
                            ProductQuery::UpdateProduct {
                                id,
                                body: body.unwrap(),
                                restocked: self.restock,
                            },
                        )
                    },
                    _ => Next::Respond(database_error()),
                }
            },
            _ => {
                match answer {
                    Answer::One(product) => Next::Respond(
                        data_only(StatusCode::Success, Payload::Product(product)),
                    ),
                    Answer::Failed(_) => Next::Respond(
                        failure(
                            StatusCode::InternalServerError,
                            ErrorCode::DatabaseError,
                            String::from_str("Erreur lors de la mise à jour du produit"),
                        ),
                    ),
                    _ => Next::Respond(database_error()),
                }
            },
        }
    }
}

// ---------------------------------------------------------------- DELETE /products/:id

/// Where a product deletion stands.
#[derive(Clone, Copy, Debug, PartialEq, Eq, Structural)]
pub enum DeleteStage {
    /// Waiting to learn whether the product exists.
    CheckingExistence,
    /// Waiting for the deletion.
    Deleting,
    /// The reply was sent.
    Finished,
}

/// Upper bound on the database calls a deletion still makes.
pub open spec fn delete_calls_left(stage: DeleteStage) -> nat {
    match stage {
        DeleteStage::CheckingExistence => 2,
        DeleteStage::Deleting => 1,
        DeleteStage::Finished => 0,
    }
}

/// The answers a deletion can be given at `stage`.
pub open spec fn delete_accepts<P>(stage: DeleteStage, answer: AnswerView<P>) -> bool {
    match stage {
        DeleteStage::CheckingExistence => answer is Flag || answer is Failed,
        DeleteStage::Deleting => answer is Rows || answer is Failed,
        DeleteStage::Finished => false,
    }
}

/// One step of `DELETE /products/:id` for product `id`: the stage after
/// `answer`, and what to do next.
pub open spec fn delete_product_step<P, B>(id: i32, stage: DeleteStage, answer: AnswerView<P>) -> (
    DeleteStage,
    NextView<P, B>,
) {
    match (stage, answer) {
        (DeleteStage::CheckingExistence, AnswerView::Flag(false)) => (
            DeleteStage::Finished,
            NextView::Respond(not_found_reply(id)),
        ),
        (DeleteStage::CheckingExistence, AnswerView::Flag(true)) => (
            DeleteStage::Deleting,
            NextView::Ask(QueryView::DeleteProduct { id }),
        ),
        (DeleteStage::Deleting, AnswerView::Rows(n)) => (
            DeleteStage::Finished,
            NextView::Respond(
                if n == 0 {
                    not_found_reply(id)
                } else {
                    success_reply(
                        StatusCode::Success,
                        PayloadView::Nothing,
                        "Product deleted successfully"@,
                    )
                },
            ),
        ),
        (DeleteStage::Deleting, AnswerView::Failed(text)) => (
            DeleteStage::Finished,
            NextView::Respond(delete_failure_reply(text)),
        ),
        _ => (DeleteStage::Finished, NextView::Respond(database_error_reply())),
    }
}

/// A `DELETE /products/:id` in progress.
pub struct DeleteProductFlow {
    /// The product to delete.
    pub id: i32,
    pub stage: DeleteStage,
}

impl DeleteProductFlow {
    /// Starts a deletion: the first question is whether product `id` exists.
    pub fn start<B>(id: i32) -> (res: (DeleteProductFlow, ProductQuery<B>))
        ensures
            res.0.id == id,
            res.0.stage == DeleteStage::CheckingExistence,
            res.1@ == (QueryView::<B>::ProductExists { id }),
    {
        (DeleteProductFlow { id, stage: DeleteStage::CheckingExistence }, ProductQuery::ProductExists { id })
    }

    /// Takes the answer to the pending question and says what comes next.
    pub fn step<P, B>(&mut self, answer: Answer<P>) -> (next: Next<P, B>)
        requires
            delete_accepts(old(self).stage, answer@),
        ensures
            final(self).id == old(self).id,
            (final(self).stage, next@) == delete_product_step::<P, B>(
                old(self).id,
                old(self).stage,
                answer@,
            ),
    {
        let id = self.id;
        match self.stage {
            DeleteStage::CheckingExistence => {
                self.stage = DeleteStage::Finished;
                match answer {
                    Answer::Flag(false) => Next::Respond(not_found(id)),
                    Answer::Flag(true) => {
                        self.stage = DeleteStage::Deleting;
                        Next::Ask(ProductQuery::DeleteProduct { id })
                    },
                    _ => Next::Respond(database_error()),
                }
            },
            _ => {
                self.stage = DeleteStage::Finished;
                match answer {
                    Answer::Rows(n) => {
                        if n == 0 {
                            Next::Respond(not_found(id))
                        } else {
                            Next::Respond(
                                success(
                                    StatusCode::Success,
                                    Payload::Nothing,
                                    String::from_str("Product deleted successfully"),
                                ),
                            )
                        }
                    },
                    Answer::Failed(f) => {
                        if is_foreign_key_violation(&f) {
                            Next::Respond(
                                failure(
                                    StatusCode::InternalServerError,
                                    ErrorCode::DatabaseError,
                                    String::from_str(
                                        "Impossible de supprimer ce produit car il est référencé dans d'autres tables",
                                    ),
                                ),
                            )
                        } else {
                            Next::Respond(
                                failure(
                                    StatusCode::InternalServerError,
                                    ErrorCode::DatabaseError,
                                    String::from_str("Erreur lors de la suppression du produit"),
                                ),
                            )
                        }
                    },
                    _ => Next::Respond(database_error()),
                }
            },
        }
    }
}

} // verus!
