# midi-hub

Routes the events of MIDI devices to small applications (forward, paint, a selection of
applications, Spotify and YouTube players) and renders what they emit on the devices, with
specific support for the Novation Launchpad Pro.

- `src/` is the library, verified with Verus: image scaling, the pad layout and SysEx frames
  of the Launchpad Pro, the device features, the decisions of the applications and of the
  router, and the requests of the Spotify authorization flow.
- `app/` is the program around it: the command line, the configuration file and prompts,
  the PortMidi ports, the web player's HTTP server, and the asynchronous tasks that talk to
  the Spotify and YouTube APIs.
- `tests/` runs the library on concrete values.
