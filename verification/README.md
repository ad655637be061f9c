# daft_function_proto

Scalar function calls of a query plan, to and from their protobuf messages.

- `functions`: calls, their arguments and the expressions around them
- `objects`: python objects, data types and whole-column python functions
- `special`: the special forms, which have no messages yet
- `ir`, `python`: the plan; `proto`: the messages; `error`: how a conversion fails
- `environment`: what reading a message asks of its surroundings: the builtin functions, kept
  in `registry`, and the decisions on resource requests
- `requests`: the resource requests that a message makes
- `payload`: the byte format of serialised python objects, through bincode
- `model`: what the conversions compute; `laws`: what holds of them together

Expressions other than function calls, and data types, are carried in the encoding of their
own codecs. A python object is taken to be stored as its pickle is, a vector of bytes. The
pickle itself is neither made nor checked: an object comes with it, or with the reason why there
is none, which writing the object then reports.

Resource requests count whole units. The scheduler's own requests have floating point counts,
and its constructor decides which of them are valid: `app` lists the requests of a message,
puts each to that constructor and hands the decisions to the library, which reports a refusal
as the error of the conversion.
