# merlin_matrix

The command logic of Merlin, a Matrix chat bot, verified with Verus.

- `src/` is the verified library: how a message becomes a command line, the
  registry of commands and the permission check, help pages, the reply
  buffers, every reply the commands compose, and each organisation command
  (groups, contexts, permission rules) as a step function from what the
  organisation store answered to the next thing to do. Laws that span
  several calls stand there as public proof functions.
- `app/` is the bot around it: the Matrix client, configuration files,
  argument parsing with clap, and the loop that performs what the step
  functions ask of the organisation store and the room.
- `tests/` runs the library on concrete inputs.
