; void* get_current_fiber(void): the fiber data of the thread information block.

.386
.model flat, c

assume fs:nothing

.code

get_current_fiber proc
    mov eax, fs:[10h]
    ret
get_current_fiber endp

end
