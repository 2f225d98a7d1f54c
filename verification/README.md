# jatsl

A scheduler for jobs that run for as long as the program does, with its books and decisions
verified by Verus.

- `src/` is the library. `scheduler` holds the books: the status list, the handles by which jobs
  are reached, and what is done to them when a job is spawned, reports that it is ready, ends, or
  when all jobs are terminated. `lifecycle` is the course of a single job, from start over crashes
  and restarts to its end. `status_server` is the health report. `signals` holds the handles of
  `tokio` and `futures`, each with a record of its uses for contracts to speak of. `laws` states
  what holds of the scheduler as a whole.
- `app/` runs the jobs on tokio: it performs what the library decides and tells it what happened.
  The delays between retries come from an iterator of the user's.
- `tests/` runs the library on examples.
