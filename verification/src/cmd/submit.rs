//! `submit`: hands a prediction to the coordinator.

use vstd::prelude::*;

use crate::cmd::loop_worker;
use crate::cmd::server_error;
use crate::cmd::step::{Step, StepView};
use crate::double;
use crate::json;
use crate::json::{Json, JsonNumber, JsonView};
use crate::output;
use crate::output::{Internal, InternalView, Output, OutputView};
use crate::text;

verus! {

/// The bits of 0.01, the lowest limit price.
pub const LOWEST_PRICE: u64 = 0x3f84_7ae1_47ae_147b;

/// The bits of 0.99, the highest limit price.
pub const HIGHEST_PRICE: u64 = 0x3fef_ae14_7ae1_47ae;

/// A limit price: the bits of the double, and the decimal that writes it.
#[derive(Debug, PartialEq, Eq)]
pub struct LimitPrice {
    pub bits: u64,
    pub decimal: String,
}

/// The arguments of `submit`.
#[derive(Debug, PartialEq, Eq)]
pub struct SubmitArgs {
    pub market: String,
    pub prediction: String,
    pub tickets: u32,
    pub reasoning: String,
    pub limit_price: Option<LimitPrice>,
    pub dry_run: bool,
}

#[verifier::ext_equal]
pub struct PriceView {
    pub bits: u64,
    pub decimal: Seq<char>,
}

#[verifier::ext_equal]
pub struct SubmitView {
    pub market: Seq<char>,
    pub prediction: Seq<char>,
    pub tickets: u32,
    pub reasoning: Seq<char>,
    pub limit_price: Option<PriceView>,
    pub dry_run: bool,
}

impl LimitPrice {
    pub open spec fn view(&self) -> PriceView {
        PriceView { bits: self.bits, decimal: self.decimal@ }
    }
}

impl SubmitArgs {
    pub open spec fn view(&self) -> SubmitView {
        SubmitView {
            market: self.market@,
            prediction: self.prediction@,
            tickets: self.tickets,
            reasoning: self.reasoning@,
            limit_price: match self.limit_price {
                Some(p) => Some(p@),
                None => None,
            },
            dry_run: self.dry_run,
        }
    }
}

// Checks.

/// Whether the prediction is one of the two directions.
pub open spec fn known_direction(prediction: Seq<char>) -> bool {
    prediction == "up"@ || prediction == "down"@
}

/// Whether a limit price, if there is one, is from 0.01 to 0.99.
pub open spec fn fair_price(price: Option<PriceView>) -> bool {
    match price {
        Some(p) => double::between(p.bits, LOWEST_PRICE, HIGHEST_PRICE),
        None => true,
    }
}

/// Whether the arguments make a prediction.
pub open spec fn valid(a: SubmitView) -> bool {
    known_direction(a.prediction) && a.tickets > 0 && fair_price(a.limit_price)
}

/// What is said of arguments that are refused.
pub open spec fn refusal(message: Seq<char>, code: Seq<char>, suggestion: Seq<char>) -> OutputView {
    OutputView::error(
        message,
        code,
        "validation"@,
        false,
        suggestion,
        InternalView::act("fix_command"@),
    )
}

/// What is said of arguments that make no prediction: of the direction first, then of the
/// tickets, then of the limit price.
pub open spec fn refused(a: SubmitView) -> OutputView {
    if !known_direction(a.prediction) {
        refusal(
            "Prediction must be 'up' or 'down'."@,
            "INVALID_DIRECTION"@,
            "Use --prediction up or --prediction down."@,
        )
    } else if a.tickets == 0 {
        refusal(
            "Tickets must be greater than 0."@,
            "INVALID_TICKETS"@,
            "Use --tickets N where N >= 1."@,
        )
    } else {
        refusal(
            "limit-price must be between 0.01 and 0.99, got "@ + a.limit_price->0.decimal,
            "INVALID_LIMIT_PRICE"@,
            "Use --limit-price 0.01 to 0.99."@,
        )
    }
}

/// What is posted.
pub open spec fn posted(a: SubmitView) -> JsonView {
    let body = loop_worker::submission_body(a.market, a.prediction, a.tickets, a.reasoning);
    match a.limit_price {
        Some(p) => body.with("limit_price"@, JsonView::Number(JsonNumber::Float(p.bits))),
        None => body,
    }
}

/// The command that submits for real what a dry run showed, with the reasoning cut to 50
/// characters.
pub open spec fn real_command(a: SubmitView) -> Seq<char> {
    let command = "predict-agent submit --market "@ + a.market + " --prediction "@ + a.prediction
        + " --tickets "@ + text::decimal(a.tickets as nat) + " --reasoning \""@
        + server_error::head(a.reasoning, 50) + "\""@;
    match a.limit_price {
        Some(p) => command + " --limit-price "@ + p.decimal,
        None => command,
    }
}

/// What a dry run shows.
pub open spec fn rehearsal(a: SubmitView) -> OutputView {
    OutputView::success(
        "[dry-run] Would submit "@ + text::upper(a.prediction) + " prediction for market "@
            + a.market + " with "@ + text::decimal(a.tickets as nat) + " tickets."@,
        JsonView::object().with("dry_run"@, JsonView::Bool(true)).with("would_submit"@, posted(a)),
        InternalView::act("submit"@).run(real_command(a)),
    )
}

/// What `submit` does.
pub open spec fn begun(a: SubmitView) -> StepView {
    if !valid(a) {
        StepView::Print(refused(a))
    } else if a.dry_run {
        StepView::Print(rehearsal(a))
    } else {
        StepView::Post { path: "/api/v1/predictions"@, body: posted(a) }
    }
}

fn refuse(message: String, code: &str, suggestion: &str) -> (r: Output)
    ensures
        r@ == refusal(message@, code@, suggestion@),
{
    Output::error(message, code, "validation", false, suggestion, Internal::act("fix_command"))
}

fn build_body(args: &SubmitArgs) -> (r: Json)
    ensures
        r@ == posted(args@),
{
    let body = loop_worker::body(
        args.market.as_str(),
        args.prediction.as_str(),
        args.tickets,
        args.reasoning.as_str(),
    );
    match &args.limit_price {
        Some(p) => body.with("limit_price", Json::Number(JsonNumber::Float(p.bits))),
        None => body,
    }
}

fn build_command(args: &SubmitArgs) -> (r: String)
    ensures
        r@ == real_command(args@),
{
    let mut c = "predict-agent submit --market ".to_owned();
    c.append(args.market.as_str());
    c.append(" --prediction ");
    c.append(args.prediction.as_str());
    c.append(" --tickets ");
    c.append(text::u64_text(args.tickets as u64).as_str());
    c.append(" --reasoning \"");
    c.append(server_error::first_chars(args.reasoning.as_str(), 50).as_str());
    c.append("\"");
    if let Some(p) = &args.limit_price {
        c.append(" --limit-price ");
        c.append(p.decimal.as_str());
    }
    c
}

fn rehearse(args: &SubmitArgs) -> (r: Output)
    ensures
        r@ == rehearsal(args@),
{
    let mut message = "[dry-run] Would submit ".to_owned();
    message.append(text::to_upper(args.prediction.as_str()).as_str());
    message.append(" prediction for market ");
    message.append(args.market.as_str());
    message.append(" with ");
    message.append(text::u64_text(args.tickets as u64).as_str());
    message.append(" tickets.");
    let data = Json::object().with("dry_run", Json::Bool(true)).with(
        "would_submit",
        build_body(args),
    );
    let command = build_command(args);
    Output::success(message, data, Internal::act("submit").run(command.as_str()))
}

/// What `submit` does: it refuses the arguments, shows what it would do, or posts the prediction.
pub fn run(args: &SubmitArgs) -> (r: Step)
    ensures
        r@ == begun(args@),
{
    if !text::same(args.prediction.as_str(), "up") && !text::same(args.prediction.as_str(), "down") {
        return Step::Print(
            refuse(
                "Prediction must be 'up' or 'down'.".to_owned(),
                "INVALID_DIRECTION",
                "Use --prediction up or --prediction down.",
            ),
        );
    }
    if args.tickets == 0 {
        return Step::Print(
            refuse(
                "Tickets must be greater than 0.".to_owned(),
                "INVALID_TICKETS",
                "Use --tickets N where N >= 1.",
            ),
        );
    }
    if let Some(p) = &args.limit_price {
        if !double::is_between(p.bits, LOWEST_PRICE, HIGHEST_PRICE) {
            let mut message = "limit-price must be between 0.01 and 0.99, got ".to_owned();
            message.append(p.decimal.as_str());
            return Step::Print(
                refuse(message, "INVALID_LIMIT_PRICE", "Use --limit-price 0.01 to 0.99."),
            );
        }
    }
    if args.dry_run {
        return Step::Print(rehearse(args));
    }
    Step::Post { path: "/api/v1/predictions".to_owned(), body: build_body(args) }
}

// Failures.

/// What the coordinator says of a failure.
#[derive(Debug, PartialEq, Eq)]
pub struct ServerError {
    pub code: String,
    pub category: String,
    pub retryable: bool,
    pub suggestion: String,
}

#[verifier::ext_equal]
pub struct ServerErrorView {
    pub code: Seq<char>,
    pub category: Seq<char>,
    pub retryable: bool,
    pub suggestion: Seq<char>,
}

impl ServerError {
    pub open spec fn view(&self) -> ServerErrorView {
        ServerErrorView {
            code: self.code@,
            category: self.category@,
            retryable: self.retryable,
            suggestion: self.suggestion@,
        }
    }
}

/// The view of details that may be missing.
pub open spec fn opt_error(e: Option<ServerError>) -> Option<ServerErrorView> {
    match e {
        Some(d) => Some(d@),
        None => None,
    }
}

/// The details in an answer, if it gives a code.
pub open spec fn details_in(answer: JsonView) -> Option<ServerErrorView> {
    match answer.get("error"@) {
        None => None,
        Some(e) => match e.str_at("code"@) {
            None => None,
            Some(code) => Some(
                ServerErrorView {
                    code,
                    category: e.str_or("category"@, "unknown"@),
                    retryable: e.flag("retryable"@),
                    suggestion: e.str_or("suggestion"@, Seq::empty()),
                },
            ),
        },
    }
}

pub open spec fn details_in_opt(answer: Option<JsonView>) -> Option<ServerErrorView> {
    match answer {
        Some(v) => details_in(v),
        None => None,
    }
}

/// What is taken from the words of a failure that gives no code.
pub open spec fn guessed(err: Seq<char>) -> ServerErrorView {
    if text::contains(err, "RATE_LIMIT"@) || text::contains(err, "429"@) {
        ServerErrorView {
            code: "RATE_LIMIT_EXCEEDED"@,
            category: "rate_limit"@,
            retryable: true,
            suggestion: "Wait and retry."@,
        }
    } else if text::contains(err, "MARKET_CLOSED"@) {
        ServerErrorView {
            code: "MARKET_CLOSED"@,
            category: "validation"@,
            retryable: false,
            suggestion: "Choose an open market."@,
        }
    } else {
        ServerErrorView {
            code: "SUBMISSION_FAILED"@,
            category: "unknown"@,
            retryable: false,
            suggestion: "Check the error details and retry."@,
        }
    }
}

/// The details of a failure: from the text as a whole where it is JSON, or else from the part from
/// the first brace on, or else from its words.
pub open spec fn details(
    err: Seq<char>,
    whole: Option<JsonView>,
    tail: Option<JsonView>,
) -> ServerErrorView {
    match details_in_opt(whole) {
        Some(d) => d,
        None => match details_in_opt(tail) {
            Some(d) => d,
            None => guessed(err),
        },
    }
}

/// The message of a failure, from the same places, or else the text itself.
pub open spec fn message_of(
    err: Seq<char>,
    whole: Option<JsonView>,
    tail: Option<JsonView>,
) -> Seq<char> {
    let in_whole = match whole {
        Some(v) => match server_error::message_in(v) {
            Some(m) => Some(m),
            None => v.str_at("message"@),
        },
        None => None,
    };
    match in_whole {
        Some(m) => m,
        None => match tail {
            Some(v) => match server_error::message_in(v) {
                Some(m) => m,
                None => err,
            },
            None => err,
        },
    }
}

/// The details in an answer, if it gives a code.
pub fn read_details(answer: &Json) -> (r: Option<ServerError>)
    ensures
        opt_error(r) == details_in(answer@),
{
    match answer.get("error") {
        None => None,
        Some(e) => match e.str_at("code") {
            None => None,
            Some(code) => {
                proof {
                    reveal_strlit("");
                    assert(""@ =~= Seq::<char>::empty());
                }
                Some(
                    ServerError {
                        code: code.to_owned(),
                        category: e.str_or("category", "unknown").to_owned(),
                        retryable: e.flag("retryable"),
                        suggestion: e.str_or("suggestion", "").to_owned(),
                    },
                )
            },
        },
    }
}

fn guess(err: &str) -> (r: ServerError)
    ensures
        r@ == guessed(err@),
{
    if text::contains_text(err, "RATE_LIMIT") || text::contains_text(err, "429") {
        return ServerError {
            code: "RATE_LIMIT_EXCEEDED".to_owned(),
            category: "rate_limit".to_owned(),
            retryable: true,
            suggestion: "Wait and retry.".to_owned(),
        };
    }
    if text::contains_text(err, "MARKET_CLOSED") {
        return ServerError {
            code: "MARKET_CLOSED".to_owned(),
            category: "validation".to_owned(),
            retryable: false,
            suggestion: "Choose an open market.".to_owned(),
        };
    }
    ServerError {
        code: "SUBMISSION_FAILED".to_owned(),
        category: "unknown".to_owned(),
        retryable: false,
        suggestion: "Check the error details and retry.".to_owned(),
    }
}

/// The details of a failure, from its text and the JSON values in it.
pub fn choose_details(err: &str, whole: Option<&Json>, tail: Option<&Json>) -> (r: ServerError)
    ensures
        r@ == details(err@, json::maybe(whole), json::maybe(tail)),
{
    if let Some(v) = whole {
        if let Some(d) = read_details(v) {
            return d;
        }
    }
    if let Some(v) = tail {
        if let Some(d) = read_details(v) {
            return d;
        }
    }
    guess(err)
}

/// The message of a failure, from its text and the JSON values in it.
pub fn choose_message(err: &str, whole: Option<&Json>, tail: Option<&Json>) -> (r: String)
    ensures
        r@ == message_of(err@, json::maybe(whole), json::maybe(tail)),
{
    if let Some(v) = whole {
        if let Some(m) = server_error::message(v) {
            return m.to_owned();
        }
        if let Some(m) = v.str_at("message") {
            return m.to_owned();
        }
    }
    if let Some(v) = tail {
        if let Some(m) = server_error::message(v) {
            return m.to_owned();
        }
    }
    err.to_owned()
}

/// The message of a failure.
pub fn extract_message(err: &str) -> (r: String)
    ensures
        r@ == message_of(err@, json::json_of_text(err@), server_error::answer_in(err@)),
{
    let whole = json::parse(err);
    let tail = server_error::answer(err);
    choose_message(err, whole.as_ref(), tail.as_ref())
}

/// Whether a text ends in an answer that gives a code, with no opening brace before it.
pub open spec fn quotes(err: Seq<char>, front: Seq<char>, written: Seq<char>) -> bool {
    &&& err == front + written
    &&& !front.contains('{')
    &&& json::opens_with_brace(written)
    &&& details_in_opt(json::json_of_text(written)) is Some
}

/// The details of a failure. Where its text ends in an answer that gives a code, they are those of
/// the answer, whatever else the text says.
pub fn parse_server_error(err: &str) -> (r: ServerError)
    ensures
        r@ == details(err@, json::json_of_text(err@), server_error::answer_in(err@)),
        forall|front: Seq<char>, written: Seq<char>| #[trigger]
            quotes(err@, front, written) ==> Some(r@) == details_in_opt(
                json::json_of_text(written),
            ),
{
    let whole = json::parse(err);
    let tail = server_error::answer(err);
    proof {
        assert forall|front: Seq<char>, written: Seq<char>| #[trigger]
            quotes(err@, front, written) implies Some(
            details(err@, json::json_of_text(err@), server_error::answer_in(err@)),
        ) == details_in_opt(json::json_of_text(written)) by {
            lemma_quoted_details(err@, front, written);
        }
    }
    choose_details(err, whole.as_ref(), tail.as_ref())
}

/// Once a text has been read, the details in an answer that it ends in are those of the failure.
proof fn lemma_quoted_details(err: Seq<char>, front: Seq<char>, written: Seq<char>)
    requires
        quotes(err, front, written),
        json::braces_tell(err, json::json_of_text(err)),
    ensures
        Some(details(err, json::json_of_text(err), server_error::answer_in(err)))
            == details_in_opt(json::json_of_text(written)),
{
    server_error::lemma_answer_behind(front, written);
    let k = front.len() as int;
    assert(err.take(k) =~= front);
    assert(err.skip(k) =~= written);
}

/// What to do after a failure.
pub open spec fn recovery(retryable: bool) -> InternalView {
    if retryable {
        InternalView::act("retry"@).wait(30).run("predict-agent context"@)
    } else {
        InternalView::act("fix_command"@).run("predict-agent context"@)
    }
}

/// What is said of a prediction that the coordinator did not take.
pub open spec fn failure(message: Seq<char>, d: ServerErrorView) -> OutputView {
    OutputView::error(
        "Submission failed: "@ + message,
        d.code,
        d.category,
        d.retryable,
        d.suggestion,
        recovery(d.retryable),
    )
}

/// What is said of a prediction that the coordinator did not take.
pub fn report_failure(message: &str, d: &ServerError) -> (r: Output)
    ensures
        r@ == failure(message@, d@),
{
    let mut user_message = "Submission failed: ".to_owned();
    user_message.append(message);
    let internal = if d.retryable {
        Internal::act("retry").wait(30).run("predict-agent context")
    } else {
        Internal::act("fix_command").run("predict-agent context")
    };
    Output::error(
        user_message,
        d.code.as_str(),
        d.category.as_str(),
        d.retryable,
        d.suggestion.as_str(),
        internal,
    )
}

// Success.

/// The chips that a correct prediction pays, as the coordinator says.
pub open spec fn payout_in(data: JsonView) -> Seq<char> {
    match data.get("payout_if_correct"@) {
        Some(v) => match v.as_i64() {
            Some(n) => text::signed_decimal(n as int),
            None => "0"@,
        },
        None => "0"@,
    }
}

/// What is said of a prediction that the coordinator took, by what became of the order.
pub open spec fn acceptance(a: SubmitView, data: JsonView) -> Seq<char> {
    let status = data.str_or("order_status"@, "open"@);
    let start = "Submitted "@ + text::upper(data.str_or("direction"@, a.prediction)) + " for "@
        + a.market;
    let filled = text::signed_decimal(data.i64_or("tickets_filled"@, 0) as int);
    let total = text::decimal(a.tickets as nat);
    if status == "filled"@ {
        start + ". Filled "@ + filled + "/"@ + total + " tickets. Payout if correct: "@ + payout_in(
            data,
        ) + " chips."@
    } else if status == "partial"@ {
        start + ". Partially filled "@ + filled + "/"@ + total
            + " tickets. Unfilled tickets auto-refund at close."@
    } else {
        start + ". "@ + total
            + " tickets queued (no immediate fill). Chips locked until market close."@
    }
}

/// What `submit` prints in the end.
pub open spec fn finished(
    a: SubmitView,
    answer: Result<JsonView, Seq<char>>,
) -> OutputView {
    match answer {
        Err(e) => {
            let whole = json::json_of_text(e);
            let tail = server_error::answer_in(e);
            failure(message_of(e, whole, tail), details(e, whole, tail))
        },
        Ok(v) => OutputView::success(
            acceptance(a, v.data()),
            v.data(),
            InternalView::act("fetch_context"@).run("predict-agent context"@),
        ),
    }
}

fn payout(data: &Json) -> (r: String)
    ensures
        r@ == payout_in(data@),
{
    match data.get("payout_if_correct") {
        Some(v) => match v.as_i64() {
            Some(n) => text::i64_text(n),
            None => "0".to_owned(),
        },
        None => "0".to_owned(),
    }
}

/// What is said of a prediction that the coordinator took.
pub fn accepted_message(args: &SubmitArgs, data: &Json) -> (r: String)
    ensures
        r@ == acceptance(args@, data@),
{
    let status = data.str_or("order_status", "open");
    let filled = text::i64_text(data.i64_or("tickets_filled", 0));
    let total = text::u64_text(args.tickets as u64);
    let mut m = "Submitted ".to_owned();
    m.append(text::to_upper(data.str_or("direction", args.prediction.as_str())).as_str());
    m.append(" for ");
    m.append(args.market.as_str());
    if text::same(status, "filled") {
        m.append(". Filled ");
        m.append(filled.as_str());
        m.append("/");
        m.append(total.as_str());
        m.append(" tickets. Payout if correct: ");
        m.append(payout(data).as_str());
        m.append(" chips.");
    } else if text::same(status, "partial") {
        m.append(". Partially filled ");
        m.append(filled.as_str());
        m.append("/");
        m.append(total.as_str());
        m.append(" tickets. Unfilled tickets auto-refund at close.");
    } else {
        m.append(". ");
        m.append(total.as_str());
        m.append(" tickets queued (no immediate fill). Chips locked until market close.");
    }
    m
}

/// What `submit` prints when the coordinator has answered, or could not be asked.
pub fn finish(args: &SubmitArgs, answer: Result<Json, String>) -> (r: Output)
    ensures
        r@ == finished(args@, output::answered(answer)),
        answer matches Err(e) ==> forall|front: Seq<char>, written: Seq<char>| #[trigger]
            quotes(e@, front, written) ==> r@.error is Some && r@.error->0.code == details_in_opt(
                json::json_of_text(written),
            )->0.code && r@.internal == recovery(
                details_in_opt(json::json_of_text(written))->0.retryable,
            ),
{
    match answer {
        Err(e) => {
            let d = parse_server_error(e.as_str());
            let message = extract_message(e.as_str());
            report_failure(message.as_str(), &d)
        },
        Ok(v) => {
            let data = v.data();
            let message = accepted_message(args, &data);
            Output::success(
                message,
                data,
                Internal::act("fetch_context").run("predict-agent context"),
            )
        },
    }
}

/// A prediction is posted exactly where its arguments are valid and it is no dry run; whatever is
/// posted names the market, the direction, the tickets and the reasoning of the arguments, and
/// their limit price where they have one.
pub proof fn lemma_posted(a: SubmitView)
    ensures
        begun(a) is Post <==> valid(a) && !a.dry_run,
        posted(a).str_at("market_id"@) == Some(a.market),
        posted(a).str_at("prediction"@) == Some(a.prediction),
        posted(a).get("tickets"@) == Some(JsonView::unsigned(a.tickets as u64)),
        posted(a).str_at("reasoning"@) == Some(a.reasoning),
        match a.limit_price {
            Some(p) => posted(a).number_at("limit_price"@) == Some(JsonNumber::Float(p.bits)),
            None => posted(a).get("limit_price"@) is None,
        },
{
    loop_worker::lemma_keys_differ();
    reveal_strlit("market_id");
    reveal_strlit("prediction");
    reveal_strlit("tickets");
    reveal_strlit("reasoning");
    reveal_strlit("limit_price");
    assert("limit_price"@[0] == 'l');
    assert("market_id"@[0] == 'm');
    assert("prediction"@[0] == 'p');
    assert("tickets"@[0] == 't');
    assert("reasoning"@[0] == 'r');
}

/// What a dry run would submit is what is posted without it.
pub proof fn lemma_rehearsal(a: SubmitView)
    requires
        valid(a),
        a.dry_run,
    ensures
        begun(a) == StepView::Print(rehearsal(a)),
        rehearsal(a).data matches Some(d) && d.get("would_submit"@) == Some(posted(a)),
        begun(SubmitView { dry_run: false, ..a }) matches StepView::Post { body, .. } && body
            == posted(a),
{
}

/// Where the text of a failure ends in an answer that gives a code, with no opening brace before
/// it, what is printed has its code, category and suggestion, and retries exactly where the answer
/// says so. What the text is as a whole is known once it has been read.
pub proof fn lemma_code_passed_on(a: SubmitView, err: Seq<char>, front: Seq<char>, written: Seq<char>)
    requires
        quotes(err, front, written),
        json::braces_tell(err, json::json_of_text(err)),
    ensures
        ({
            let d = details_in_opt(json::json_of_text(written))->0;
            let o = finished(a, Err(err));
            &&& o.error is Some
            &&& o.error->0.code == d.code
            &&& o.error->0.category == d.category
            &&& o.error->0.retryable == d.retryable
            &&& o.error->0.suggestion == d.suggestion
            &&& o.internal == recovery(d.retryable)
        }),
{
    lemma_quoted_details(err, front, written);
}

/// Whatever `submit` prints is consistent. It names a command to run next, unless the arguments
/// are refused.
pub proof fn lemma_outputs(a: SubmitView, answer: Result<JsonView, Seq<char>>)
    ensures
        begun(a) matches StepView::Print(o) ==> o.consistent() && o.ok == valid(a) && (
        o.internal.next_command is Some <==> valid(a)),
        finished(a, answer).consistent(),
        finished(a, answer).ok <==> answer is Ok,
        finished(a, answer).internal.next_command == Some("predict-agent context"@),
        finished(a, answer).error matches Some(e) ==> (e.retryable <==> finished(
            a,
            answer,
        ).internal.wait_seconds == Some(30u64)),
{
    reveal_strlit("fix_command");
    reveal_strlit("submit");
    reveal_strlit("retry");
    reveal_strlit("fetch_context");
}

} // verus!
