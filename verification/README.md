# alexa_ai

An Alexa skill that answers questions through a completion service, keeps a
shopping list, tells puns, and answers some questions with canned replies.

- `src/` is the verified library: the request and response models, the decision
  of what the skill says for each request, the shopping list, the canned answers
  and the text processing, each with its contract and the laws that tie them
  together.
- `app/` is the HTTP server: it reads JSON requests, calls the library, performs
  the call to the completion service when the library asks for one, and writes
  the JSON response.
- `tests/` runs the library on concrete requests.
