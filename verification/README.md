# ambientd

A daemon that sets the screen and keyboard backlight from an ambient light
sensor. The logic is a Verus-verified library in `src/`; `app/main.rs` is the
daemon around it (sysfs reads, `brightnessctl` and `systemctl` runs, the lock
socket, and the floating-point brightness curve).

- `src/text.rs`: whitespace trimming, literal comparison, decimal numbers.
- `src/settings.rs`: the options, the settings that assign them, and the
  proof that command-line settings take precedence over the config file.
- `src/config.rs`: the `key=value` config file.
- `src/cli.rs`: the command line.
- `src/keyboard.rs`: the keyboard backlight's Schmitt trigger.
- `src/lock.rs`: the singleton lock as a state machine.
- `src/usage.rs`, `src/dirs.rs`, `src/sysfs.rs`, `src/commands.rs`: the usage
  text, the config and runtime directories, sysfs files, command arguments.
