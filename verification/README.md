# omarchy_command_runner

Runs an existing command directly, or routes an invocation to a compatible provider
command, with the routing rules proved in Verus.

- `src/command.rs`: the command model (program path and arguments as raw bytes).
- `src/outcome.rs`: provider policy, command origin and the routed result.
- `src/absence.rs`: when inspections of a path and its ancestors show an executable absent.
- `src/route.rs`: the route as a state machine from event to next action.
- `src/route_laws.rs`: whole-invocation properties of the route.
- `app/`: process execution and path inspection around the library.
