# instar

Disk image operations in a sandbox: every image is read and written by a small
guest in a KVM virtual machine of its own, and the host never parses what the
image holds. This is the host's side of it.

- `src/` is the library, in Verus. It decides everything that the host decides:
  what a command line asks for and whether it is refused, what the guest is
  told byte for byte, which devices it gets and where they lie, how an exit of
  the machine is answered, what a guest's messages mean and what is printed.
  Every function has a contract; the properties that span functions are public
  proof functions whose names begin with `law_`.
- `app/` is the program around it: command line, files, KVM, the serial line.
  The virtio device, the codec of the serial line and the readers of image
  headers come from sibling crates and are linked in.
- `tests/` runs the library on concrete values.

What is not proved: `String::push` appends a character; the clock and the
random number generator give back values of their types. Each of these stands
in `src/` beside a comment that names the function.
