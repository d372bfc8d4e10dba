# nemo_relay_callbacks

The decisions behind the relay's foreign-function callbacks, its subscriber
dispatcher and its JavaScript promise bridge, written and proved in Verus.

Every function in `src/` takes what has happened and says what to do next. The
crate in `app/` owns the pointers, threads, channels and runtimes: it performs what
the library asks for and hands back what came of it.

| Module | What it decides |
| --- | --- |
| `text`, `json`, `error` | how text, JSON and errors cross a boundary |
| `callable`, `llm` | what a synchronous C callback is called with, and what its reply means |
| `trampoline` | how an intercept's `next` reads its argument and gives back its result |
| `sanitize`, `codec` | how codecs are identified, and who owns what a sanitizer returns |
| `async_callable` | the envelopes of completion-based callbacks and what they settle with |
| `completion`, `next` | when a completion settles, and when a continuation may run |
| `dispatcher`, `worker`, `delivery` | what is queued, in which order it runs, and how one event reaches its subscribers |
| `flush` | what a flush and a barrier promise, over queue, worker and deliveries together |
| `promise` | how a JavaScript callback is queued, settles and closes |

The `law_*` proof functions state what holds across calls: a completion settles at
most once, a flush waits for everything queued before it, every string and request
has exactly one owner, and so on.

What is not proved is marked `external_body`: reading UTF-8 (`std`), and reading and
quoting JSON (`serde_json`).
