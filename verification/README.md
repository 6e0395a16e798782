# wascc-provider

A kubelet backend that runs [waSCC](https://wascc.dev/) actors as the containers of pods, with its
logic verified by [Verus](https://github.com/verus-lang/verus).

- `src/` is the library. It decides: which pods can run, which ports their containers get, with
  which capabilities an actor is configured, what is done in which order, and what is reported. It
  does nothing on the machine itself. Where something is to be done, it hands out a command or an
  action, and is told how it went.
- `app/` is the provider for `kubelet`. It talks to the waSCC host, the Kubernetes API and the file
  system, as the library asks for.
- `tests/` runs the library.

What holds of the library as a whole is stated and proved in `src/laws.rs`.
