# columbo

Server-side suspense for streamed HTML: a placeholder is rendered into the
document at once, and the result of the suspended work is streamed later as a
`<template>` that a small script swaps into the placeholder's place.

- `src/` is the verified library (Verus). It holds everything that is
  computed: the `Html` type, the markup of placeholders and replacements, the
  decimal ids that pair them up, HTML escaping and the panic page, the options
  with their defaults, the message a finished task sends, and the first chunk
  of the response stream. Laws proved there include that a placeholder and a
  replacement carry the same id text exactly when their ids agree, and that
  escaped text can neither open nor close a tag.
- `app/` is the asynchronous runtime around it: spawning suspended futures on
  tokio, the channel of replacements, cancellation when the response goes
  away, the byte stream, and the maud and axum integrations.
- `tests/` exercises the library on concrete values.
