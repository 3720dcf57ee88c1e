# renovate-k8s-trigger

Runs a self-hosted Renovate CronJob on demand: an HTTP request with a shared
secret makes a Job from the CronJob's template, the way
`kubectl create job --from=cronjob/renovate ..` does, unless a Job that was made
so before is still running.

The decisions are a library verified with Verus; HTTP and the Kubernetes API are
around it.

| Directory | Holds |
|---|---|
| `src/` | the verified library: authentication, Job building, naming, throttling, answers, settings |
| `tests/` | its tests |
| `app/` | the service: environment, HTTP server, calls to the cluster, logs |

## API

| Method | Path | Secret | Answer |
|---|---|---|---|
| `GET` / `POST` / `PUT` | `/trigger` | required | `200` and the new Job, `409` and the Job that is still active, `401`, or a plain `500` |
| `GET` | `/health` | none | `200` |

The secret comes as `X-Api-Key: ..` or as `Authorization: Bearer ..`. Every other
request is answered `404`. What went wrong inside is logged and never answered.

## Settings

| Variable | Required | Default |
|---|---|---|
| `API_SECRET` | yes, not empty | |
| `CRON_JOB_NAME` | yes | |
| `NAMESPACE` | no | `default` |
| `PORT` | no | `8080` |
| `JOB_TTL_SECONDS` | no | `86400`; a non-negative integer, or empty for no limit |

## What is trusted

Verus takes on trust the contracts of the functions it does not read:
`HeaderMap::get` and `HeaderValue::to_str` of `actix_web`, `Map::new` and
`Map::insert` of `serde_json`, `Uuid::new_v4` of `uuid`, the clone of
`k8s_openapi`'s `JobSpec`, and from the standard library `str`'s `==`,
`strip_prefix` and `parse`. Each stands in `src/` with a comment that says what is
claimed of it.
