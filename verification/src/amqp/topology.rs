//! What a consumer declares at the broker before it takes deliveries.

use vstd::prelude::*;

verus! {

/// The exchange that refused deliveries go to.
pub const DLX_EXCHANGE: &'static str = "dlx.transaction";

/// The queue that keeps refused deliveries.
pub const DLQ_QUEUE: &'static str = "transaction.evaluation.dlq";

/// The tag under which a consumer takes deliveries.
pub const CONSUMER_TAG: &'static str = "fraud_guard_consumer";

/// How long a queue lives and who may use it.
#[derive(Debug, Clone, Copy, PartialEq, Eq, Structural)]
pub struct QueueOptions {
    pub durable: bool,
    pub exclusive: bool,
    pub auto_delete: bool,
}

/// Where a queue's refused deliveries go.
#[derive(Debug)]
pub struct DeadLetter {
    pub exchange: String,
    pub routing_key: String,
}

/// One declaration at the broker.
#[derive(Debug)]
pub enum SetupStep {
    /// Declares an exchange of the direct kind.
    DeclareDirectExchange { exchange: String, durable: bool },
    /// Declares a queue.
    DeclareQueue { queue: String, options: QueueOptions, dead_letter: Option<DeadLetter> },
    /// Binds a queue to an exchange.
    BindQueue { queue: String, exchange: String, routing_key: String },
    /// Takes the deliveries of a queue.
    Consume { queue: String, consumer_tag: String },
}

/// The model of `SetupStep`; a dead letter is an exchange and a routing key.
pub enum SetupStepView {
    DeclareDirectExchange { exchange: Seq<char>, durable: bool },
    DeclareQueue {
        queue: Seq<char>,
        options: QueueOptions,
        dead_letter: Option<(Seq<char>, Seq<char>)>,
    },
    BindQueue { queue: Seq<char>, exchange: Seq<char>, routing_key: Seq<char> },
    Consume { queue: Seq<char>, consumer_tag: Seq<char> },
}

impl View for SetupStep {
    type V = SetupStepView;

    open spec fn view(&self) -> SetupStepView {
        match *self {
            SetupStep::DeclareDirectExchange {
                exchange,
                durable,
            } => SetupStepView::DeclareDirectExchange { exchange: exchange@, durable },
            SetupStep::DeclareQueue {
                queue,
                options,
                dead_letter,
            } => SetupStepView::DeclareQueue {
                queue: queue@,
                options,
                dead_letter: match dead_letter {
                    Some(d) => Some((d.exchange@, d.routing_key@)),
                    None => None,
                },
            },
            SetupStep::BindQueue {
                queue,
                exchange,
                routing_key,
            } => SetupStepView::BindQueue {
                queue: queue@,
                exchange: exchange@,
                routing_key: routing_key@,
            },
            SetupStep::Consume { queue, consumer_tag } => SetupStepView::Consume {
                queue: queue@,
                consumer_tag: consumer_tag@,
            },
        }
    }
}

/// Every queue outlives the broker's restarts, is open to all connections and
/// stays when nobody uses it.
pub open spec fn lasting() -> QueueOptions {
    QueueOptions { durable: true, exclusive: false, auto_delete: false }
}

/// The declarations of a consumer with a dead-letter queue, in their order: what a
/// declaration refers to is declared before it.
pub open spec fn dead_letter_plan(queue: Seq<char>) -> Seq<SetupStepView> {
    seq![
        SetupStepView::DeclareDirectExchange { exchange: DLX_EXCHANGE@, durable: true },
        SetupStepView::DeclareQueue { queue: DLQ_QUEUE@, options: lasting(), dead_letter: None },
        SetupStepView::BindQueue {
            queue: DLQ_QUEUE@,
            exchange: DLX_EXCHANGE@,
            routing_key: DLQ_QUEUE@,
        },
        SetupStepView::DeclareQueue {
            queue,
            options: lasting(),
            dead_letter: Some((DLX_EXCHANGE@, DLQ_QUEUE@)),
        },
        SetupStepView::Consume { queue, consumer_tag: CONSUMER_TAG@ },
    ]
}

/// The declarations of a consumer without a dead-letter queue, in their order.
pub open spec fn plain_plan(queue: Seq<char>) -> Seq<SetupStepView> {
    seq![
        SetupStepView::DeclareQueue { queue, options: lasting(), dead_letter: None },
        SetupStepView::Consume { queue, consumer_tag: CONSUMER_TAG@ },
    ]
}

/// What a queue's refused deliveries are marked with is what the dead-letter queue
/// is bound by, and the exchange, that queue and its binding are declared before
/// the queue that refers to them; deliveries are taken last, from the queue that
/// was asked for.
pub proof fn law_refused_deliveries_are_kept(queue: Seq<char>)
    ensures
        ({
            let plan = dead_letter_plan(queue);
            &&& plan[3] matches SetupStepView::DeclareQueue {
                queue: q,
                dead_letter: Some((exchange, routing_key)),
                ..
            } && {
                &&& q == queue
                &&& plan[0] == (SetupStepView::DeclareDirectExchange { exchange, durable: true })
                &&& plan[1] matches SetupStepView::DeclareQueue { queue: kept, .. } && plan[2] == (
                SetupStepView::BindQueue { queue: kept, exchange, routing_key })
            }
            &&& plan.last() matches SetupStepView::Consume { queue: q, .. } && q == queue
        }),
{
}

fn lasting_options() -> (r: QueueOptions)
    ensures
        r == lasting(),
{
    QueueOptions { durable: true, exclusive: false, auto_delete: false }
}

/// The declarations of a consumer with a dead-letter queue.
pub fn dead_letter_setup(queue_name: &str) -> (r: Vec<SetupStep>)
    ensures
        r@.map_values(|step: SetupStep| step@) == dead_letter_plan(queue_name@),
{
    let mut steps: Vec<SetupStep> = Vec::new();
    steps.push(
        SetupStep::DeclareDirectExchange { exchange: DLX_EXCHANGE.to_owned(), durable: true },
    );
    steps.push(
        SetupStep::DeclareQueue {
            queue: DLQ_QUEUE.to_owned(),
            options: lasting_options(),
            dead_letter: None,
        },
    );
    steps.push(
        SetupStep::BindQueue {
            queue: DLQ_QUEUE.to_owned(),
            exchange: DLX_EXCHANGE.to_owned(),
            routing_key: DLQ_QUEUE.to_owned(),
        },
    );
    steps.push(
        SetupStep::DeclareQueue {
            queue: queue_name.to_owned(),
            options: lasting_options(),
            dead_letter: Some(
                DeadLetter {
                    exchange: DLX_EXCHANGE.to_owned(),
                    routing_key: DLQ_QUEUE.to_owned(),
                },
            ),
        },
    );
    steps.push(
        SetupStep::Consume { queue: queue_name.to_owned(), consumer_tag: CONSUMER_TAG.to_owned() },
    );
    assert(steps@.map_values(|step: SetupStep| step@) =~= dead_letter_plan(queue_name@));
    steps
}

/// The declarations of a consumer without a dead-letter queue.
pub fn plain_setup(queue_name: &str) -> (r: Vec<SetupStep>)
    ensures
        r@.map_values(|step: SetupStep| step@) == plain_plan(queue_name@),
{
    let mut steps: Vec<SetupStep> = Vec::new();
    steps.push(
        SetupStep::DeclareQueue {
            queue: queue_name.to_owned(),
            options: lasting_options(),
            dead_letter: None,
        },
    );
    steps.push(
        SetupStep::Consume { queue: queue_name.to_owned(), consumer_tag: CONSUMER_TAG.to_owned() },
    );
    assert(steps@.map_values(|step: SetupStep| step@) =~= plain_plan(queue_name@));
    steps
}

/// Whatever queue is asked for, every queue that is declared lasts and is open to all,
/// and deliveries are taken from the queue that was asked for, under the consumer's
/// tag, once it is declared.
pub proof fn law_every_setup_consumes_a_lasting_queue(queue: Seq<char>, i: int)
    ensures
        ({
            let plan = dead_letter_plan(queue);
            &&& plan.len() == 5
            &&& 0 <= i < plan.len() ==> (plan[i] matches SetupStepView::DeclareQueue { options, .. }
                ==> options.durable && !options.exclusive && !options.auto_delete)
            &&& plan[3] matches SetupStepView::DeclareQueue { queue: q, .. } && q == queue
            &&& plan[4] matches SetupStepView::Consume { queue: q, consumer_tag } && q == queue
                && consumer_tag == "fraud_guard_consumer"@
        }),
        ({
            let plan = plain_plan(queue);
            &&& plan.len() == 2
            &&& plan[0] matches SetupStepView::DeclareQueue { queue: q, options, dead_letter } && q
                == queue && dead_letter is None && options.durable && !options.exclusive
                && !options.auto_delete
            &&& plan[1] matches SetupStepView::Consume { queue: q, consumer_tag } && q == queue
                && consumer_tag == "fraud_guard_consumer"@
        }),
{
}

/// Whatever queue is asked for, its refused deliveries go by the dead-letter exchange
/// to the dead-letter queue, which has no such rule of its own.
pub proof fn law_where_refused_deliveries_go(queue: Seq<char>)
    ensures
        ({
            let plan = dead_letter_plan(queue);
            &&& plan[0] matches SetupStepView::DeclareDirectExchange { exchange, durable }
                && exchange == "dlx.transaction"@ && durable
            &&& plan[1] matches SetupStepView::DeclareQueue { queue: q, dead_letter, .. } && q
                == "transaction.evaluation.dlq"@ && dead_letter is None
            &&& plan[2] matches SetupStepView::BindQueue { queue: q, exchange, routing_key } && q
                == "transaction.evaluation.dlq"@ && exchange == "dlx.transaction"@ && routing_key
                == "transaction.evaluation.dlq"@
            &&& plan[3] matches SetupStepView::DeclareQueue { dead_letter: Some(letter), .. }
                && letter.0 == "dlx.transaction"@ && letter.1 == "transaction.evaluation.dlq"@
        }),
{
}

/// The model of a declaration keeps which declaration it is and every name in it.
pub proof fn law_models_keep_declarations(step: SetupStep)
    ensures
        match step {
            SetupStep::DeclareDirectExchange { exchange, durable } => step@
                matches SetupStepView::DeclareDirectExchange { exchange: e, durable: d } && e
                == exchange@ && d == durable,
            SetupStep::DeclareQueue { queue, options, dead_letter } => step@
                matches SetupStepView::DeclareQueue { queue: q, options: o, dead_letter: l } && q
                == queue@ && o == options && match dead_letter {
                Some(letter) => l == Some((letter.exchange@, letter.routing_key@)),
                None => l is None,
            },
            SetupStep::BindQueue { queue, exchange, routing_key } => step@
                matches SetupStepView::BindQueue { queue: q, exchange: e, routing_key: k } && q
                == queue@ && e == exchange@ && k == routing_key@,
            SetupStep::Consume { queue, consumer_tag } => step@
                matches SetupStepView::Consume { queue: q, consumer_tag: t } && q == queue@ && t
                == consumer_tag@,
        },
{
}

} // verus!
