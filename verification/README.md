# node_mimimi

The verified core of a mail importer that moves eml and mbox files into a
mail account, chunk by chunk, and can be paused, resumed and stopped.

- `src/` is the library, verified with Verus:
  - `status`: import statuses and progress actions, and what an action means
    for the status and the local import directory;
  - `state_id`: the local state file that names the server's import state;
  - `errors`: the errors of preparing and running an import;
  - `remote_state`: the counters and status of the server's import state;
  - `import_loop`: the import loop as a state machine, fed with what came of
    each piece of server and file work;
  - `attachments`: flattening the attachments of a chunk for one upload and
    handing the answers back to their mails;
  - `preparation`: filling the import directory with numbered eml files from
    eml and mbox sources, as a state machine fed with the file work's results;
  - `paths`, `decimal`, `file_import`: the import directory, the names of the
    eml files, classifying, splitting and parsing source files;
  - `aggregate_id`, `credentials`, `retry`, `importer`: smaller pieces.
- `app/` holds the file system work and a driver that runs the import loop
  against an implementation of the server work.
- `tests/` exercise the library on concrete values.
