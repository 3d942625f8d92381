# fraud_guard

Screening of transactions for fraud. Deliveries of a broker ask for transactions;
each is read, held against a list of rules, accepted, put up for review or
declined, stored together with its decision, and settled at the broker.

`src/` is the library, verified by Verus. It asks the machine for the time and for
random identifiers and does no other input or output: what waits for the broker, the
database or a timer is a function from what was met to what is to be done next.

| Module | Holds |
| --- | --- |
| `text`, `timestamp`, `transaction_id`, `json` | the values that everything else is made of |
| `error`, `transaction`, `decision`, `rule` | the domain: requests, rules and their verdicts |
| `engine` | which decision the rules lead to |
| `messages`, `ledger`, `sink` | what the parts tell each other, and when a delivery is settled |
| `amqp` | how deliveries are read, handed over and settled, what is declared at the broker, when to reconnect |
| `storage` | rows, the order of the operations on the database, retries |
| `config`, `rules_cache` | the configuration, and how the rules are kept fresh |

Public proof functions named `law_..` state what holds across functions. Functions
marked `external_body`, and the one `assume_specification`, are where the library
relies on `chrono`, `uuid` and the standard library; each says what it takes for
granted.

`app/` is the program around the library: actors, the broker's and the database's
clients, and `main`. `tests/` holds the library's tests.
