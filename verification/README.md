# ec2_manager_gui

A desktop explorer for EC2 instances that are reached through AWS Systems
Manager: it lists and filters instances, opens sessions and port forwards in
embedded terminals, and keeps a log.

- `src/` is the decision logic, verified with Verus. It takes and returns plain
  values: what a search asks for, whether a connection may be opened, what runs
  in its terminal, what the window says.
- `app/` is the program around it: the window (`eframe`), pseudo terminals
  (`portable-pty`), the clock, and the `ec2_manager` crate that talks to AWS and
  keeps the configuration.
- `tests/` runs the library with the real `vt100` emulator.

The state of the explorer is `state::Ec2GuiApp`; its view `AppView` is what the
contracts of the other modules speak of. `screen` and `sessions` hold the
emulated terminals, and `text` and `aws_cli` state what is taken for granted of
the standard library.
