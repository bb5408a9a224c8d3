# tclac

Control TCL Home smart air conditioners over the internet: an interactive
dashboard for the terminal, and one-shot commands for scripts.

The logic is a library verified with Verus. The program around it, in `app/`,
sends the requests, reads the keys and draws the screen.

## The library, `src/`

| Module | What it holds |
| --- | --- |
| `device` | the state of an AC, read from its shadow document, and the commands it takes |
| `app`, `app_laws` | the dashboard as a state machine: keys, clicks, ticks and cloud answers |
| `auth` | the authentication chain, stage by stage |
| `rest`, `http` | signed REST calls and the device listing |
| `iot` | shadow documents, command publications, endpoints |
| `config`, `cache`, `launch` | credentials, the session cache, what to start |
| `cli`, `orders`, `reports`, `energy` | the commands: options, arguments, output |
| `ui`, `panels`, `airflow`, `readouts`, `trend`, `style` | the screen, as plain values |
| `json`, `text`, `double`, `clock`, `fault` | documents, strings, doubles as bit patterns, the calendar, failures |
| `laws`, `cloud_laws` | what holds of several functions together |

Readings of the device are doubles. The library holds them as bit patterns and
rounds, prints, subtracts and compares them in integer arithmetic. What takes
angles, the blades of the rotating fan and the wave of the automatic speed, is
computed in floating point by `app/paint.rs` and handed to the library as plain
values.

## The program, `app/`

`main.rs` starts the dashboard (`tui.rs`, `paint.rs`) or a command
(`commands.rs`). `net.rs` and `shadow.rs` talk to the cloud; `settings.rs` and
`store.rs` read and write the files.
