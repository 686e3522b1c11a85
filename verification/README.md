# ssh-mcp-rs

An MCP server that exposes SSH control over multiple named remote hosts via stdio, with the
decisions behind it verified by Verus.

## Layout

- `src/` is the library. It decides; it does no I/O. Its functions carry contracts that Verus
  checks. Taken on trust are only a few small wrappers round the `regex`, `base64` and `dirs` crates
  and the standard library, whose doc comments say what they claim.
- `app/` is the program: command line, config file, logging, MCP over stdio, SSH by `russh` and
  running `shellcheck`. It asks the library what to do next, does it, and hands back what came of
  it.
- `tests/` runs the library.

## The library

| Module | What it decides |
|--------|-----------------|
| `config` | which hosts there are, what a setting that is left out means, which configurations are usable |
| `security` | which commands may run: length limit, heuristic patterns, allowlist, shellcheck |
| `sudo` | the line that runs a command through sudo, and how a shell reads it |
| `pool` | which session a call gets, and which sessions a changed configuration drops |
| `reload` | what a changed config file does |
| `connect` | dialling and authenticating to a host, step by step |
| `channel` | running a command over a session, step by step |
| `sftp` | putting and getting a file over a session, step by step |
| `server`, `call`, `reply` | the tools: which calls are accepted, what each does in turn, what it replies |
| `error` | errors, and how an MCP client sees them |
| `ssh` | what a session gives back, and a stand-in for one |
| `name_map`, `text`, `path`, `pattern`, `encoding` | maps by name, texts, paths, regular expressions, base64 |

Where work has to be done outside, the library is a state machine: `action` says what is to be done
next, `step` takes what came of it, and `finish` gives the result. An event that does not answer the
action changes nothing.

## Configuration

Default path: `~/.config/ssh-mcp/config.toml`. Override with `--config /path/to/config.toml`.

```toml
[hosts.prod]
host = "192.168.1.10"
port = 22
user = "admin"
auth = "key"                        # "password" | "key" | "agent"
key_path = "~/.ssh/id_ed25519"
sudo_password = "supersecret"       # optional
timeout_ms = 60000                  # default: 60000
max_command_chars = 1000            # default: 1000; 0 = unlimited
shellcheck = true                   # default: true
allowed_commands = []               # optional regex allowlist

[hosts.dev]
host = "dev.example.com"
user = "ubuntu"
auth = "agent"                      # reads $SSH_AUTH_SOCK
```

`port` may be left out, and is 22 then. A `~` at the beginning of `key_path` stands for the home
directory. `max_command_chars` counts characters.

`shellcheck` must be in `$PATH`, or `shellcheck_path` set, unless no host asks for it: otherwise the
server does not start.
