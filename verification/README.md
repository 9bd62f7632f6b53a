# loopx

The LoopX MiniApp controller: it turns GitHub issues and pull requests into
durable, resumable agent tasks driven by the pinned LoopX CLI, one task per
repository at a time.

`src/` is the library, verified with Verus. Each module states its behaviour
in `requires`/`ensures` contracts over mathematical models (`Seq`, `Map`,
spec functions), and the properties that span several operations are public
proof functions (`lemma_*`).

- `types`, `ports`: the contract types shared with the CLI, workspace and
  Agent services.
- `intake`, `fingerprint`, `admission`: parsing a GitHub target, the intake
  preview fingerprint, and admitting selected items as tasks (dedup,
  idempotency, revision checks).
- `policy`, `host`, `lifecycle`, `drive`, `gates`: task state transitions,
  restart policy, settlement of agent turns, the drive loop's decisions and
  user gates.
- `store`, `control`, `requests`, `lanes`, `schedule`: the durable state,
  its bounded event log and cursors, actions on tasks and the suite, and
  repository lanes.
- `activity`, `summary`, `router`: projecting Agent events, structured agent
  summaries, and the round router's context decisions.
- `access`: which MiniApp may use the controller.

`app/` is the asynchronous host around the library: the service traits,
the controller that serialises state changes, persists them and publishes
events, and the Agent event subscriber. `tests/` exercises the library on
concrete values.
